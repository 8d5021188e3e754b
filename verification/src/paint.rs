//! The label of an error report and the colours of the terminal.

use vstd::prelude::*;
use yansi::{Color, Paint};

verus! {

/// The label of an error report where colours are off.
pub open spec fn plain_label() -> Seq<char> {
    " ERROR "@
}

/// `text` in bold on a red background: the escape sequence for bold (1) and
/// red background (41) before it, the reset sequence behind it.
pub open spec fn painted(text: Seq<char>) -> Seq<char> {
    "\x1B[1;41m"@ + text + "\x1B[0m"@
}

/// The label of an error report where colours are on.
pub open spec fn painted_label() -> Seq<char> {
    painted(plain_label())
}

/// One of the two forms of the label.
pub open spec fn is_error_label(label: Seq<char>) -> bool {
    label == plain_label() || label == painted_label()
}

/// Writes `yansi::Paint::new(text).bg(Color::Red).bold()` with `Display`.
///
/// Not proved: that `yansi` writes the bare text where painting is switched
/// off for the process, and else the text between the prefix for bold on a
/// red background and the reset suffix. Which of the two it is depends on
/// the process-wide switch, so the contract allows both.
#[verifier::external_body]
fn paint_label(text: &str) -> (r: String)
    ensures
        r@ == text@ || r@ == painted(text@),
{
    format!("{}", Paint::new(text).bg(Color::Red).bold())
}

/// The label of an error report, painted where colours are on.
pub(crate) fn error_label() -> (label: String)
    ensures
        is_error_label(label@),
{
    paint_label(" ERROR ")
}

/// Calls `yansi::Paint::enable_windows_ascii`, which asks a Windows console to
/// accept escape sequences and reports whether it does; on other systems it
/// reports `true`. The answer depends on the machine: nothing is claimed of it.
#[verifier::external_body]
fn enable_windows_ascii() -> bool {
    Paint::enable_windows_ascii()
}

/// Calls `yansi::Paint::disable`, which switches painting off for the
/// process. The switch is outside of what a contract here can state.
#[verifier::external_body]
fn disable_colors() {
    Paint::disable()
}

/// Switches painting off for the process where the console cannot show
/// colours. Call it once, before anything is rendered, and from one thread.
pub fn check_if_colors_are_supported() {
    if !enable_windows_ascii() {
        disable_colors();
    }
}

} // verus!
