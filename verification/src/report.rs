//! Diagnostics and the text that shows them against the source.

use vstd::prelude::*;
use vstd::string::StringSliceAdditionalSpecFns;
use vstd::utf8::{decode_utf8, encode_utf8, encode_utf8_valid_utf8};
use crate::layout::{
    decimal, decimal_text, push_right_aligned, push_run, right_aligned, run,
};
use crate::location::{point_text, push_point, span_of, ByteRange, NodeId, Point, Range};
use crate::paint::{error_label, painted_label, plain_label};
use crate::text::{
    has_line, lemma_has_line_below, lemma_line_at_boundaries, line, line_extent, slice_text,
};

verus! {

/// What a diagnostic says: a plain message, or a message that proposes a change.
#[derive(Debug)]
pub enum ErrorKind {
    Static(Message),
    Sugestion(Message, SugestionKind),
}

/// A message of one line or of several.
#[derive(Debug)]
pub enum Message {
    Single(String),
    Multi(Vec<String>),
}

/// A diagnostic: what it says and the bytes it is about.
#[derive(Debug)]
pub struct Error {
    message: ErrorKind,
    location: ByteRange,
}

/// What a suggestion proposes to do with its text.
#[derive(Debug)]
pub enum SugestionKind {
    Insert,
    Replace,
}

/// A diagnostic with the source text it is about and the name of that text.
pub struct ErrorWithCode<'a> {
    err: Error,
    code: &'a str,
    filename: &'a str,
}

/// View of a `Message`.
pub enum MessageView {
    Single(Seq<char>),
    Multi(Seq<Seq<char>>),
}

/// View of an `ErrorKind`.
pub enum ErrorKindView {
    Static(MessageView),
    Sugestion(MessageView, SugestionKind),
}

/// View of an `Error`.
pub struct ErrorView {
    pub message: ErrorKindView,
    pub location: ByteRange,
}

/// View of an `ErrorWithCode`: the diagnostic, the bytes of the source text,
/// and the name of the text.
pub struct ErrorWithCodeView {
    pub err: ErrorView,
    pub code: Seq<u8>,
    pub filename: Seq<char>,
}

/// The texts of a list of strings.
pub open spec fn texts(lines: Seq<String>) -> Seq<Seq<char>> {
    Seq::new(lines.len(), |i: int| lines[i]@)
}

impl View for Message {
    type V = MessageView;

    open spec fn view(&self) -> MessageView {
        match self {
            Message::Single(s) => MessageView::Single(s@),
            Message::Multi(lines) => MessageView::Multi(texts(lines@)),
        }
    }
}

impl View for ErrorKind {
    type V = ErrorKindView;

    open spec fn view(&self) -> ErrorKindView {
        match self {
            ErrorKind::Static(m) => ErrorKindView::Static(m@),
            ErrorKind::Sugestion(m, kind) => ErrorKindView::Sugestion(m@, *kind),
        }
    }
}

impl View for Error {
    type V = ErrorView;

    closed spec fn view(&self) -> ErrorView {
        ErrorView { message: self.message@, location: self.location }
    }
}

impl<'a> View for ErrorWithCode<'a> {
    type V = ErrorWithCodeView;

    closed spec fn view(&self) -> ErrorWithCodeView {
        ErrorWithCodeView {
            err: self.err@,
            code: self.code.spec_bytes(),
            filename: self.filename@,
        }
    }
}

/// Width of the field that holds a line number.
pub const PAD: usize = 3;

/// The empty number field in front of the gutter, in rows that stand with
/// the numbered rows of the source.
pub open spec fn margin() -> Seq<char> {
    run(' ', PAD as nat)
}

/// A number in the field in front of the gutter.
pub open spec fn numbered(n: nat) -> Seq<char> {
    right_aligned(decimal(n), PAD as nat)
}

/// Line `i` of the source behind its number, which counts from one.
pub open spec fn source_line(text: Seq<u8>, i: nat) -> Seq<char> {
    numbered(i + 1) + " │ "@ + decode_utf8(line(text, i)) + "\n"@
}

/// The lines of the source from `first` to `last`, as far as the text has them.
pub open spec fn source_lines(text: Seq<u8>, first: nat, last: nat) -> Seq<char>
    decreases last + 1 - first,
{
    if first <= last && has_line(text, first) {
        source_line(text, first) + source_lines(text, first + 1, last)
    } else {
        Seq::empty()
    }
}

/// Line `i` of the header: the first behind the label, the others indented
/// to stand below it; an empty line follows each.
pub open spec fn header_line(label: Seq<char>, i: int, s: Seq<char>) -> Seq<char> {
    if i == 0 {
        "\n"@ + label + ": "@ + s + "\n\n"@
    } else {
        "         "@ + s + "\n\n"@
    }
}

/// The first `n` lines of the header.
pub open spec fn header_lines(label: Seq<char>, lines: Seq<Seq<char>>, n: nat) -> Seq<char>
    decreases n,
{
    if n == 0 {
        Seq::empty()
    } else {
        header_lines(label, lines, (n - 1) as nat) + header_line(label, n - 1, lines[n - 1])
    }
}

/// The header of a report.
pub open spec fn header(label: Seq<char>, message: MessageView) -> Seq<char> {
    match message {
        MessageView::Single(s) => header_line(label, 0, s),
        MessageView::Multi(lines) => header_lines(label, lines, lines.len()),
    }
}

/// The line that names the text and the point where the span starts: two
/// spaces, the arrow, the name, a colon and the point.
pub open spec fn location_line(file: Seq<char>, start: Point) -> Seq<char> {
    "  ┌─> "@ + file + ":"@ + point_text(start) + "\n"@
}

/// A line that holds the gutter alone: two spaces and the bar.
pub open spec fn gutter_line() -> Seq<char> {
    "  │\n"@
}

/// The row of markers below a span of one line: from the column of its start
/// as many as the columns differ.
pub open spec fn underline(span: Range) -> Seq<char> {
    margin() + " │ "@ + run(' ', span.0.column as nat) + run(
        '^',
        (span.1.column - span.0.column) as nat,
    ) + "\n"@
}

/// The report of a plain message: header, location, the source lines of the
/// span, and the markers where the span is on one line.
pub open spec fn report(
    label: Seq<char>,
    message: MessageView,
    text: Seq<u8>,
    file: Seq<char>,
    span: Range,
) -> Seq<char> {
    header(label, message) + location_line(file, span.0) + gutter_line() + source_lines(
        text,
        span.0.line as nat,
        span.1.line as nat,
    ) + (if span.0.line == span.1.line {
        underline(span)
    } else {
        Seq::empty()
    })
}

/// How many lines below the end of the span a suggestion is numbered.
pub open spec fn row_offset(kind: SugestionKind) -> nat {
    match kind {
        SugestionKind::Insert => 2,
        SugestionKind::Replace => 1,
    }
}

/// A suggestion of one line at row `n`, and below it as many plus signs as
/// the suggestion has bytes.
pub open spec fn suggested_single(n: nat, column: nat, s: Seq<char>) -> Seq<char> {
    numbered(n) + " │ "@ + run(' ', column) + s + "\n"@ + margin() + " │ "@ + run(' ', column)
        + run('+', encode_utf8(s).len()) + "\n"@
}

/// One line of a suggestion of several lines, marked in the gutter.
pub open spec fn suggested_row(n: nat, column: nat, s: Seq<char>) -> Seq<char> {
    numbered(n) + "+│ "@ + run(' ', column) + s + "\n"@
}

/// The first `n` lines of a suggestion of several lines, numbered from `first`.
pub open spec fn suggested_rows(lines: Seq<Seq<char>>, first: nat, column: nat, n: nat) -> Seq<
    char,
>
    decreases n,
{
    if n == 0 {
        Seq::empty()
    } else {
        suggested_rows(lines, first, column, (n - 1) as nat) + suggested_row(
            (first + n - 1) as nat,
            column,
            lines[n - 1],
        )
    }
}

/// The suggested text at the column where the span starts.
pub open spec fn suggested(message: MessageView, row: nat, column: nat) -> Seq<char> {
    match message {
        MessageView::Single(s) => suggested_single(row, column, s),
        MessageView::Multi(lines) => suggested_rows(lines, row, column, lines.len()),
    }
}

/// A suggestion: for an insertion the source lines of the span, then the
/// suggested text.
pub open spec fn suggestion(
    message: MessageView,
    kind: SugestionKind,
    text: Seq<u8>,
    span: Range,
) -> Seq<char> {
    (if kind is Insert {
        source_lines(text, span.0.line as nat, span.1.line as nat)
    } else {
        Seq::empty()
    }) + suggested(message, span.1.line as nat + row_offset(kind), span.0.column as nat)
}

/// The text that shows the diagnostic `err` against `text`, which is named `file`.
pub open spec fn rendering(label: Seq<char>, err: ErrorView, text: Seq<u8>, file: Seq<char>) -> Seq<
    char,
> {
    let span = span_of(text, err.location);
    (match err.message {
        ErrorKindView::Static(m) => report(label, m, text, file, span),
        ErrorKindView::Sugestion(m, kind) => suggestion(m, kind, text, span),
    }) + gutter_line()
}

/// The report of a plain message whose span lies on one line that the text
/// has: under the header and the location stand the line behind its number
/// and the row of markers.
pub proof fn lemma_report_on_one_line(
    label: Seq<char>,
    message: MessageView,
    text: Seq<u8>,
    file: Seq<char>,
    span: Range,
)
    requires
        span.0.line == span.1.line,
        has_line(text, span.0.line as nat),
    ensures
        report(label, message, text, file, span) == header(label, message) + location_line(
            file,
            span.0,
        ) + gutter_line() + source_line(text, span.0.line as nat) + underline(span),
        underline(span) == margin() + " │ "@ + run(' ', span.0.column as nat) + run(
            '^',
            (span.1.column - span.0.column) as nat,
        ) + "\n"@,
{
    let l = span.0.line as nat;
    assert(source_lines(text, l + 1, l) == Seq::<char>::empty());
    assert(source_lines(text, l, l) =~= source_line(text, l));
}

/// Whether the markers of `err` can be drawn: where a plain message has its
/// span on one line, the span does not start behind its end.
pub open spec fn drawable(err: ErrorView, text: Seq<u8>) -> bool {
    let span = span_of(text, err.location);
    err.message is Static && span.0.line == span.1.line ==> span.0.column <= span.1.column
}

impl Error {
    /// A diagnostic with a plain message.
    pub fn new(message: Message, location: ByteRange) -> (r: Error)
        ensures
            r@ == (ErrorView { message: ErrorKindView::Static(message@), location }),
    {
        Error { message: ErrorKind::Static(message), location }
    }

    /// A diagnostic that proposes a change.
    pub fn new_sugestion(message: Message, kind: SugestionKind, location: ByteRange) -> (r: Error)
        ensures
            r@ == (ErrorView { message: ErrorKindView::Sugestion(message@, kind), location }),
    {
        Error { message: ErrorKind::Sugestion(message, kind), location }
    }

    /// Binds the diagnostic to the source text it is about and to the name of that text.
    pub fn with_code<'a>(self, code: &'a str, filename: &'a str) -> (r: ErrorWithCode<'a>)
        ensures
            r@ == (ErrorWithCodeView {
                err: self@,
                code: code.spec_bytes(),
                filename: filename@,
            }),
    {
        ErrorWithCode { err: self, code, filename }
    }

    /// The node that the diagnostic is about.
    pub fn id(&self) -> (r: NodeId)
        ensures
            r == self@.location.2,
    {
        self.location.2
    }

    /// What the diagnostic says.
    pub fn message(&self) -> (r: &ErrorKind)
        ensures
            r@ == self@.message,
    {
        &self.message
    }

    /// The bytes that the diagnostic is about.
    pub fn location(&self) -> (r: ByteRange)
        ensures
            r == self@.location,
    {
        self.location
    }
}

/// Appends the empty field in front of the gutter.
fn push_margin(out: &mut String)
    ensures
        final(out)@ == old(out)@ + margin(),
{
    proof {
        reveal_strlit(" ");
    }
    push_run(out, " ", PAD);
}

/// Appends `count` spaces.
fn push_spaces(out: &mut String, count: usize)
    ensures
        final(out)@ == old(out)@ + run(' ', count as nat),
{
    proof {
        reveal_strlit(" ");
    }
    push_run(out, " ", count);
}

/// Appends a number in the field in front of the gutter.
fn push_numbered(out: &mut String, n: u128)
    ensures
        final(out)@ == old(out)@ + numbered(n as nat),
{
    let numeral = decimal_text(n);
    push_right_aligned(out, numeral.as_str(), PAD);
}

/// Appends a line that holds the gutter alone.
fn push_gutter_line(out: &mut String)
    ensures
        final(out)@ == old(out)@ + gutter_line(),
{
    out.append("  │\n");
}

/// Appends the lines of `code` from `line_start` to `line_end`, each behind its number.
pub fn write_lines(out: &mut String, code: &str, line_start: usize, line_end: usize)
    ensures
        final(out)@ == old(out)@ + source_lines(
            code.spec_bytes(),
            line_start as nat,
            line_end as nat,
        ),
{
    let bytes = code.as_bytes();
    let n = bytes.len();
    let ghost text = code.spec_bytes();
    let mut i: usize = 0;
    let mut start: usize = 0;
    while i < line_start && start < n
        invariant
            bytes@ == text,
            n == text.len(),
            i <= line_start,
            i <= start <= n,
            start == crate::text::line_start(text, i as nat),
        decreases n - start,
    {
        let (_, next) = line_extent(bytes, start);
        start = next;
        i = i + 1;
    }
    if start >= n {
        proof {
            if has_line(text, line_start as nat) {
                lemma_has_line_below(text, i as nat, line_start as nat);
            }
            assert(out@ =~= old(out)@ + source_lines(text, line_start as nat, line_end as nat));
        }
        return ;
    }
    while i <= line_end && start < n
        invariant
            bytes@ == text,
            text == code.spec_bytes(),
            n == text.len(),
            i <= start <= n,
            start == crate::text::line_start(text, i as nat),
            out@ + source_lines(text, i as nat, line_end as nat) == old(out)@ + source_lines(
                text,
                line_start as nat,
                line_end as nat,
            ),
        decreases n - start,
    {
        let (end, next) = line_extent(bytes, start);
        proof {
            encode_utf8_valid_utf8(code@);
            lemma_line_at_boundaries(text, i as nat);
        }
        let piece = slice_text(code, start, end);
        let ghost before = out@;
        push_numbered(out, i as u128 + 1);
        out.append(" │ ");
        out.append(piece);
        out.append("\n");
        proof {
            assert(out@ =~= before + source_line(text, i as nat));
            assert(before + source_line(text, i as nat) + source_lines(
                text,
                (i + 1) as nat,
                line_end as nat,
            ) =~= before + source_lines(text, i as nat, line_end as nat));
        }
        start = next;
        i = i + 1;
    }
    assert(out@ =~= old(out)@ + source_lines(text, line_start as nat, line_end as nat));
}

/// Appends one line of the header.
fn push_header_line(out: &mut String, label: &str, first: bool, s: &str)
    ensures
        final(out)@ == old(out)@ + header_line(
            label@,
            if first {
                0int
            } else {
                1int
            },
            s@,
        ),
{
    if first {
        out.append("\n");
        out.append(label);
        out.append(": ");
    } else {
        out.append("         ");
    }
    out.append(s);
    out.append("\n\n");
    assert(out@ =~= old(out)@ + header_line(
        label@,
        if first {
            0int
        } else {
            1int
        },
        s@,
    ));
}

/// Appends the header of a report: the label and the lines of the message.
pub fn write_err_header(out: &mut String, label: &str, message: &Message)
    ensures
        final(out)@ == old(out)@ + header(label@, message@),
{
    match message {
        Message::Single(s) => {
            push_header_line(out, label, true, s.as_str());
        },
        Message::Multi(lines) => {
            let mut i: usize = 0;
            while i < lines.len()
                invariant
                    i <= lines.len(),
                    out@ == old(out)@ + header_lines(label@, texts(lines@), i as nat),
                decreases lines.len() - i,
            {
                push_header_line(out, label, i == 0, lines[i].as_str());
                i = i + 1;
                assert(out@ =~= old(out)@ + header_lines(label@, texts(lines@), i as nat));
            }
        },
    }
}

/// Appends the row of markers below a span of one line.
fn push_underline(out: &mut String, span: &Range)
    requires
        span.0.column <= span.1.column,
    ensures
        final(out)@ == old(out)@ + underline(*span),
{
    proof {
        reveal_strlit("^");
    }
    push_margin(out);
    out.append(" │ ");
    push_spaces(out, span.0.column);
    push_run(out, "^", span.1.column - span.0.column);
    out.append("\n");
    assert(out@ =~= old(out)@ + underline(*span));
}

/// Appends the suggested text, numbered from `row`, at `column`.
fn push_suggested(out: &mut String, message: &Message, row: u128, column: usize)
    requires
        row <= usize::MAX + 2,
    ensures
        final(out)@ == old(out)@ + suggested(message@, row as nat, column as nat),
{
    match message {
        Message::Single(s) => {
            proof {
                reveal_strlit("+");
            }
            let size = s.as_str().as_bytes().len();
            push_numbered(out, row);
            out.append(" │ ");
            push_spaces(out, column);
            out.append(s.as_str());
            out.append("\n");
            push_margin(out);
            out.append(" │ ");
            push_spaces(out, column);
            push_run(out, "+", size);
            out.append("\n");
            assert(out@ =~= old(out)@ + suggested_single(row as nat, column as nat, s@));
        },
        Message::Multi(lines) => {
            let mut i: usize = 0;
            while i < lines.len()
                invariant
                    i <= lines.len(),
                    row <= usize::MAX + 2,
                    out@ == old(out)@ + suggested_rows(
                        texts(lines@),
                        row as nat,
                        column as nat,
                        i as nat,
                    ),
                decreases lines.len() - i,
            {
                let ghost before = out@;
                push_numbered(out, row + i as u128);
                out.append("+│ ");
                push_spaces(out, column);
                out.append(lines[i].as_str());
                out.append("\n");
                assert(out@ =~= before + suggested_row(
                    (row + i) as nat,
                    column as nat,
                    lines@[i as int]@,
                ));
                i = i + 1;
                assert(out@ =~= old(out)@ + suggested_rows(
                    texts(lines@),
                    row as nat,
                    column as nat,
                    i as nat,
                ));
            }
        },
    }
}

impl<'a> ErrorWithCode<'a> {
    /// Whether the diagnostic can be rendered.
    pub open spec fn drawable(&self) -> bool {
        drawable(self@.err, self@.code)
    }

    /// The text that shows the diagnostic, with `label` as the label of an error report.
    pub fn render_labelled(&self, label: &str) -> (r: String)
        requires
            self.drawable(),
        ensures
            r@ == rendering(label@, self@.err, self@.code, self@.filename),
    {
        let mut out = String::new();
        let span = self.err.location.locate(self.code);
        match &self.err.message {
            ErrorKind::Sugestion(message, kind) => {
                let row = match kind {
                    SugestionKind::Insert => {
                        write_lines(&mut out, self.code, span.0.line, span.1.line);
                        span.1.line as u128 + 2
                    },
                    SugestionKind::Replace => span.1.line as u128 + 1,
                };
                push_suggested(&mut out, message, row, span.0.column);
                assert(out@ =~= suggestion(message@, *kind, self.code.spec_bytes(), span));
            },
            ErrorKind::Static(message) => {
                write_err_header(&mut out, label, message);
                out.append("  ┌─> ");
                out.append(self.filename);
                out.append(":");
                push_point(&mut out, span.0);
                out.append("\n");
                push_gutter_line(&mut out);
                write_lines(&mut out, self.code, span.0.line, span.1.line);
                if span.0.line == span.1.line {
                    push_underline(&mut out, &span);
                }
                assert(out@ =~= report(
                    label@,
                    message@,
                    self.code.spec_bytes(),
                    self.filename@,
                    span,
                ));
            },
        }
        push_gutter_line(&mut out);
        out
    }

    /// Whether `render` may be called: the test of `drawable`.
    pub fn can_render(&self) -> (r: bool)
        ensures
            r == self.drawable(),
    {
        let span = self.err.location.locate(self.code);
        match &self.err.message {
            ErrorKind::Static(_) => span.0.line != span.1.line || span.0.column <= span.1.column,
            ErrorKind::Sugestion(_, _) => true,
        }
    }

    /// The text that shows the diagnostic. The label of an error report is
    /// painted where colours are on.
    pub fn render(&self) -> (r: String)
        requires
            self.drawable(),
        ensures
            r@ == rendering(plain_label(), self@.err, self@.code, self@.filename) || r@
                == rendering(painted_label(), self@.err, self@.code, self@.filename),
    {
        let label = error_label();
        self.render_labelled(label.as_str())
    }

    /// The text that shows the diagnostic, or nothing where it cannot be rendered.
    pub fn try_render(&self) -> (r: Option<String>)
        ensures
            r is Some <==> self.drawable(),
            r matches Some(s) ==> s@ == rendering(
                plain_label(),
                self@.err,
                self@.code,
                self@.filename,
            ) || s@ == rendering(painted_label(), self@.err, self@.code, self@.filename),
    {
        if self.can_render() {
            Some(self.render())
        } else {
            None
        }
    }
}

} // verus!
