//! Source locations, diagnostics and their rendering for the front end of
//! the Magic language.
//!
//! A source text is modelled by its bytes. Lines, points and spans are stated
//! over that byte sequence; rendered output is stated as a sequence of
//! characters.
//!
//! - `text`: the lines of a text.
//! - `location`: byte offsets, points, spans, and values tagged with a span.
//! - `layout`: numerals, runs of a character, right-aligned fields.
//! - `paint`: the label of an error report and the colour switch.
//! - `report`: diagnostics and how they are shown against the source.
//! - `ast`: the syntax tree.
//! - `parser`: the parsers behind one interface, and the diagnostics for
//!   what the grammar engine rejects.

pub mod ast;
pub mod layout;
pub mod location;
pub mod paint;
pub mod parser;
pub mod report;
pub mod text;
