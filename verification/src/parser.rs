//! Parsing behind one interface, and the diagnostics for what the grammar
//! engine rejects.

use vstd::prelude::*;
use crate::ast::TopLevel;
use crate::location::{Byte, ByteRange, NodeId};
use crate::report::{Error, ErrorKindView, ErrorView, Message, MessageView};

verus! {

/// How the grammar engine can reject a text, with the byte offset it reports:
/// for a token the offset at which the token starts.
#[derive(Debug, Clone, Copy, PartialEq, Eq, Structural)]
pub enum ParseFailure {
    /// No token can start at `location`.
    InvalidToken { location: usize },
    /// The text ends at `location`, where more was expected.
    UnrecognizedEof { location: usize },
    /// The token that starts at `start` was not expected.
    UnrecognizedToken { start: usize },
    /// The token that starts at `start` follows a complete parse.
    ExtraToken { start: usize },
    /// A failure that the grammar itself defines. None is translated.
    User,
}

/// The node that diagnostics of the parser are tagged with: at the time of a
/// failure there is no node yet.
pub open spec fn placeholder_id() -> NodeId {
    NodeId(1)
}

/// The diagnostic with the one-line message `message` for the empty range at `offset`.
pub open spec fn diagnostic_at(message: Seq<char>, offset: usize) -> ErrorView {
    ErrorView {
        message: ErrorKindView::Static(MessageView::Single(message)),
        location: ByteRange(Byte(offset), Byte(offset), placeholder_id()),
    }
}

/// The diagnostic for a failure; none for a failure that the grammar itself defines.
pub open spec fn diagnostic(failure: ParseFailure) -> Option<ErrorView> {
    match failure {
        ParseFailure::InvalidToken { location } => Some(diagnostic_at("Invalid token"@, location)),
        ParseFailure::UnrecognizedEof { location } => Some(
            diagnostic_at("Unrecognized EOF"@, location),
        ),
        ParseFailure::UnrecognizedToken { start } => Some(
            diagnostic_at("Unrecognized token"@, start),
        ),
        ParseFailure::ExtraToken { start } => Some(diagnostic_at("Extra token"@, start)),
        ParseFailure::User => None,
    }
}

/// What a run of the grammar engine comes to for the caller: the tree as it
/// is, the diagnostic in place of a failure; nothing where the failure has
/// no diagnostic.
pub open spec fn outcome<T>(raw: Result<T, ParseFailure>) -> Option<Result<T, ErrorView>> {
    match raw {
        Ok(tree) => Some(Ok(tree)),
        Err(failure) => match diagnostic(failure) {
            Some(d) => Some(Err(d)),
            None => None,
        },
    }
}

/// Every failure but the one that the grammar itself defines has a
/// diagnostic: a plain message of one line about the empty range at the
/// offset of the failure, tagged with the placeholder node.
pub proof fn lemma_failures_have_diagnostics(failure: ParseFailure)
    ensures
        diagnostic(failure) is None <==> failure is User,
        diagnostic(failure) matches Some(d) ==> ({
            &&& d.message matches ErrorKindView::Static(MessageView::Single(_))
            &&& d.location.0 == d.location.1
            &&& d.location.2 == placeholder_id()
        }),
        failure matches ParseFailure::InvalidToken { location } ==> diagnostic(failure) == Some(
            diagnostic_at("Invalid token"@, location),
        ),
        failure matches ParseFailure::UnrecognizedEof { location } ==> diagnostic(failure) == Some(
            diagnostic_at("Unrecognized EOF"@, location),
        ),
        failure matches ParseFailure::UnrecognizedToken { start } ==> diagnostic(failure) == Some(
            diagnostic_at("Unrecognized token"@, start),
        ),
        failure matches ParseFailure::ExtraToken { start } ==> diagnostic(failure) == Some(
            diagnostic_at("Extra token"@, start),
        ),
{
}

/// A run of the grammar engine comes back to the caller as it went: a tree
/// stays a tree, and a failure that has a diagnostic becomes that
/// diagnostic. No failure turns into a tree, and the only run that gives the
/// caller nothing is the one that fails in the way the grammar itself defines.
pub proof fn lemma_outcome_of_engine<T>(raw: Result<T, ParseFailure>)
    ensures
        outcome(raw) is None <==> raw == Err::<T, ParseFailure>(ParseFailure::User),
        raw matches Ok(tree) ==> outcome(raw) == Some(Ok::<T, ErrorView>(tree)),
        raw matches Err(failure) ==> !(failure is User) ==> outcome(raw) == Some(
            Err::<T, ErrorView>(diagnostic(failure)->0),
        ),
{
}

/// The diagnostic that says `message` about the empty range at `singleton`.
fn error(message: &str, singleton: usize) -> (r: Error)
    ensures
        r@ == diagnostic_at(message@, singleton),
{
    let id = NodeId(1);
    Error::new(Message::Single(message.to_owned()), ByteRange::singleton(singleton, id))
}

/// Translates a failure of the grammar engine into a diagnostic. A failure
/// that the grammar itself defines has none: the caller has to deal with it.
pub fn from_lalrpop(err: ParseFailure) -> (r: Error)
    requires
        !(err is User),
    ensures
        diagnostic(err) == Some(r@),
{
    match err {
        ParseFailure::InvalidToken { location } => error("Invalid token", location),
        ParseFailure::UnrecognizedEof { location } => error("Unrecognized EOF", location),
        ParseFailure::UnrecognizedToken { start } => error("Unrecognized token", start),
        ParseFailure::ExtraToken { start } => error("Extra token", start),
        ParseFailure::User => vstd::pervasive::unreached(),
    }
}

/// What a run of the grammar engine comes to: its tree, or the diagnostic
/// for its failure.
pub fn from_engine<T>(raw: Result<T, ParseFailure>) -> (r: Result<T, Error>)
    requires
        raw matches Err(failure) ==> !(failure is User),
    ensures
        outcome(raw) == Some(
            match r {
                Ok(tree) => Ok::<T, ErrorView>(tree),
                Err(e) => Err::<T, ErrorView>(e@),
            },
        ),
{
    match raw {
        Ok(tree) => Ok(tree),
        Err(failure) => Err(from_lalrpop(failure)),
    }
}

/// A parser for one kind of syntax tree.
pub trait Parser<T> {
    /// Parses `code`: the tree, or the diagnostic for what was rejected.
    fn parse(&self, code: &str) -> Result<T, Error>;
}

/// The parsers of the language, one for each kind of tree that can be asked
/// for: `P` parses whole programs.
pub struct Parsers<P: Parser<Vec<TopLevel>>> {
    pub toplevel: P,
}

impl<P: Parser<Vec<TopLevel>>> Parser<Vec<TopLevel>> for Parsers<P> {
    /// Parses a whole program: what the parser for programs returns for `code`.
    fn parse(&self, code: &str) -> (r: Result<Vec<TopLevel>, Error>)
        ensures
            call_ensures(P::parse, (&self.toplevel, code), r),
    {
        self.toplevel.parse(code)
    }
}

impl<P: Parser<Vec<TopLevel>> + Default> Default for Parsers<P> {
    /// The parsers with the default parser for programs.
    fn default() -> (r: Parsers<P>)
        ensures
            call_ensures(P::default, (), r.toplevel),
    {
        Parsers { toplevel: P::default() }
    }
}

} // verus!
