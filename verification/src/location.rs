//! Byte offsets, the points and spans they stand for, and values tagged with a span.

use vstd::prelude::*;
use vstd::string::StringSliceAdditionalSpecFns;
use crate::layout::{decimal, push_decimal};
use crate::text::{
    consumed, has_line, lemma_consumed_le_start, lemma_consumed_ordered, lemma_has_line_below,
    lemma_line_step, line_extent, line_start, CARRIAGE_RETURN, LINE_FEED,
};

verus! {

/// Tag that ties a span to a node of the syntax tree.
#[derive(Clone, Copy, PartialEq, Eq, Structural, Hash, Debug)]
pub struct NodeId(pub usize);

/// Zero-based offset into a source text, in bytes.
#[derive(Debug, Copy, Clone, PartialEq, Eq, Structural)]
pub struct Byte(pub usize);

/// Zero-based line and column of a byte offset in a source text.
#[derive(Debug, Copy, Clone, PartialEq, Eq, Structural)]
pub struct Point {
    pub line: usize,
    pub column: usize,
}

/// Two byte offsets, start and end, and the node that the range belongs to.
/// The start is meant not to lie behind the end; nothing enforces it.
#[derive(Debug, Copy, Clone, PartialEq, Eq, Structural)]
pub struct ByteRange(pub Byte, pub Byte, pub NodeId);

/// Two points, start and end: what a byte range is in a given text.
#[derive(Debug, PartialEq, Eq, Structural)]
pub struct Range(pub Point, pub Point);

/// A value together with the span it was read from.
#[derive(Debug)]
pub struct Located<T> {
    pub location: ByteRange,
    pub data: T,
}

impl Default for NodeId {
    fn default() -> (r: NodeId)
        ensures
            r == NodeId(0),
    {
        NodeId(0)
    }
}

impl Default for Byte {
    fn default() -> (r: Byte)
        ensures
            r == Byte(0),
    {
        Byte(0)
    }
}

impl Default for Point {
    fn default() -> (r: Point)
        ensures
            r == origin(),
    {
        Point { line: 0, column: 0 }
    }
}

impl Default for ByteRange {
    fn default() -> (r: ByteRange)
        ensures
            r == ByteRange(Byte(0), Byte(0), NodeId(0)),
    {
        ByteRange(Byte(0), Byte(0), NodeId(0))
    }
}

/// The point that stands for every offset that no line holds.
pub open spec fn origin() -> Point {
    Point { line: 0, column: 0 }
}

/// Line `i` of `text` holds `offset`: the scan has counted no more than
/// `offset` when it reaches the line, and more once it has passed it.
pub open spec fn holds(text: Seq<u8>, i: nat, offset: int) -> bool {
    has_line(text, i) && consumed(text, i) <= offset < consumed(text, i + 1)
}

/// The point of `offset` in `text`: the line that holds it and the distance
/// from what was counted before that line. Offsets at or behind the end of
/// the text, and offsets that no line holds, give the origin.
pub open spec fn point_of(text: Seq<u8>, offset: int) -> Point {
    if 0 <= offset < text.len() && exists|i: nat| holds(text, i, offset) {
        let i = choose|i: nat| holds(text, i, offset);
        Point { line: i as usize, column: (offset - consumed(text, i)) as usize }
    } else {
        origin()
    }
}

/// The span of a byte range in `text`: the points of its two ends.
pub open spec fn span_of(text: Seq<u8>, range: ByteRange) -> Range {
    Range(point_of(text, range.0.0 as int), point_of(text, range.1.0 as int))
}

/// At most one line holds an offset.
pub proof fn lemma_holds_unique(text: Seq<u8>, i: nat, j: nat, offset: int)
    requires
        holds(text, i, offset),
        holds(text, j, offset),
    ensures
        i == j,
{
    if i < j {
        lemma_consumed_ordered(text, i + 1, j);
    }
    if j < i {
        lemma_consumed_ordered(text, j + 1, i);
    }
}

/// The point of an offset that line `i` holds.
pub proof fn lemma_point_of_held(text: Seq<u8>, i: nat, offset: int)
    requires
        0 <= offset < text.len(),
        holds(text, i, offset),
    ensures
        point_of(text, offset) == (Point {
            line: i as usize,
            column: (offset - consumed(text, i)) as usize,
        }),
{
    let c = choose|k: nat| holds(text, k, offset);
    lemma_holds_unique(text, c, i, offset);
}

impl Byte {
    /// Finds the line and column of this offset in `code`.
    pub fn locate(&self, code: &str) -> (p: Point)
        ensures
            p == point_of(code.spec_bytes(), self.0 as int),
    {
        let bytes = code.as_bytes();
        let n = bytes.len();
        let offset = self.0;
        if offset >= n {
            return Point { line: 0, column: 0 };
        }
        let mut line: usize = 0;
        let mut start: usize = 0;
        let mut acc: usize = 0;
        while start < n
            invariant
                bytes@ == code.spec_bytes(),
                offset == self.0,
                n == bytes@.len(),
                offset < n,
                start == line_start(bytes@, line as nat),
                start <= n,
                line <= start,
                acc == consumed(bytes@, line as nat),
                acc <= offset,
                forall|j: nat| j < line ==> !holds(bytes@, j, offset as int),
            decreases n - start,
        {
            let (end, next) = line_extent(bytes, start);
            let len = end - start;
            if len >= offset - acc {
                proof {
                    lemma_point_of_held(bytes@, line as nat, offset as int);
                }
                return Point { line, column: offset - acc };
            }
            acc = acc + len + 1;
            line = line + 1;
            start = next;
        }
        proof {
            assert forall|j: nat| !holds(bytes@, j, offset as int) by {
                if j >= line && has_line(bytes@, j) {
                    lemma_has_line_below(bytes@, line as nat, j);
                }
            }
        }
        Point { line: 0, column: 0 }
    }
}

impl ByteRange {
    /// Finds the points of both ends in `code`.
    pub fn locate(&self, code: &str) -> (r: Range)
        ensures
            r == span_of(code.spec_bytes(), *self),
    {
        Range(self.0.locate(code), self.1.locate(code))
    }

    /// The empty range at `byte`.
    pub fn singleton(byte: usize, id: NodeId) -> (r: ByteRange)
        ensures
            r == ByteRange(Byte(byte), Byte(byte), id),
    {
        ByteRange(Byte(byte), Byte(byte), id)
    }
}

impl Range {
    /// The span in `code` of the bytes from `start` to `end`.
    pub fn new(start: usize, end: usize, code: &str) -> (r: Range)
        ensures
            r == Range(
                point_of(code.spec_bytes(), start as int),
                point_of(code.spec_bytes(), end as int),
            ),
    {
        Range(Byte(start).locate(code), Byte(end).locate(code))
    }

    /// The empty span in `code` at `byte`.
    pub fn singleton(byte: usize, code: &str) -> (r: Range)
        ensures
            r == Range(
                point_of(code.spec_bytes(), byte as int),
                point_of(code.spec_bytes(), byte as int),
            ),
    {
        let point = Byte(byte).locate(code);
        Range(point, point)
    }
}

/// How a point is written: the line alone where line and column are the same
/// number, else line and column with a tilde between them.
pub open spec fn point_text(p: Point) -> Seq<char> {
    if p.line != p.column {
        decimal(p.line as nat) + seq!['~'] + decimal(p.column as nat)
    } else {
        decimal(p.line as nat)
    }
}

/// Appends a point as `point_text` writes it.
pub fn push_point(out: &mut String, p: Point)
    ensures
        final(out)@ == old(out)@ + point_text(p),
{
    push_decimal(out, p.line as u128);
    if p.line != p.column {
        proof {
            reveal_strlit("~");
        }
        out.append("~");
        push_decimal(out, p.column as u128);
    }
    assert(out@ =~= old(out)@ + point_text(p));
}

impl Point {
    /// The point as text.
    pub fn render(&self) -> (r: String)
        ensures
            r@ == point_text(*self),
    {
        let mut r = String::new();
        push_point(&mut r, *self);
        assert(r@ =~= point_text(*self));
        r
    }
}

impl<T: Default> Default for Located<T> {
    fn default() -> (r: Located<T>)
        ensures
            r.location == ByteRange(Byte(0), Byte(0), NodeId(0)),
            call_ensures(T::default, (), r.data),
    {
        Located { location: ByteRange(Byte(0), Byte(0), NodeId(0)), data: T::default() }
    }
}

impl<T: Clone> Clone for Located<T> {
    fn clone(&self) -> (r: Located<T>)
        ensures
            r.location == self.location,
            call_ensures(T::clone, (&self.data,), r.data),
    {
        Located { location: self.location, data: self.data.clone() }
    }
}

impl<T: core::fmt::Display> Located<T> {
    /// The value as `Display` writes it; the span is not shown.
    pub fn render(&self) -> (r: String)
        ensures
            vstd::string::to_string_from_display_ensures::<T>(&self.data, r),
    {
        self.data.to_string()
    }
}

impl<T> Located<T> {
    /// Applies `f` to the value and keeps the span.
    pub fn map<R>(self, f: impl FnOnce(T) -> R) -> (r: Located<R>)
        requires
            f.requires((self.data,)),
        ensures
            r.location == self.location,
            f.ensures((self.data,), r.data),
    {
        Located { location: self.location, data: f(self.data) }
    }
}

/// Values that can be tagged with the span they were read from.
pub trait WithLoc: Sized {
    /// Tags the value with `location`.
    fn with_loc(self, location: ByteRange) -> (r: Located<Self>)
        ensures
            r.location == location,
            r.data == self,
    {
        Located { location, data: self }
    }
}

impl<T: Sized> WithLoc for T {}

/// No carriage return stands directly before a line feed.
pub open spec fn plain_breaks(text: Seq<u8>) -> bool {
    forall|j: int| 0 < j < text.len() && #[trigger] text[j] == LINE_FEED ==> text[j - 1] != CARRIAGE_RETURN
}

/// An offset inside the text that lies in line `i`, and that the count has
/// not passed at the end of that line, has line `i` as its line, and as its
/// column its distance from the count at the start of that line.
pub proof fn lemma_point_of_byte_in_line(text: Seq<u8>, offset: int, i: nat)
    requires
        0 <= offset < text.len(),
        line_start(text, i) <= offset < line_start(text, i + 1),
        offset < consumed(text, i + 1),
    ensures
        point_of(text, offset) == (Point {
            line: i as usize,
            column: (offset - consumed(text, i)) as usize,
        }),
        i <= offset,
        consumed(text, i) <= offset,
{
    lemma_consumed_le_start(text, i);
    crate::text::lemma_line_index_bound(text, i);
    lemma_point_of_held(text, i, offset);
}

/// In a text whose lines end in a bare line feed the count at a line is the
/// offset at which the line starts.
pub proof fn lemma_consumed_plain(text: Seq<u8>, i: nat)
    requires
        plain_breaks(text),
        has_line(text, i),
    ensures
        consumed(text, i) == line_start(text, i),
        line_start(text, i + 1) <= consumed(text, i + 1),
    decreases i,
{
    if i > 0 {
        lemma_has_line_below(text, (i - 1) as nat, i);
        lemma_consumed_plain(text, (i - 1) as nat);
        lemma_line_step(text, (i - 1) as nat);
        crate::text::lemma_break_at(text, line_start(text, (i - 1) as nat));
    }
    lemma_line_step(text, i);
    crate::text::lemma_break_at(text, line_start(text, i));
}

/// In a text whose lines end in a bare line feed, every offset inside the
/// text has as its point the line it lies in and its distance from the start
/// of that line.
pub proof fn lemma_point_of_plain(text: Seq<u8>, offset: int, i: nat)
    requires
        plain_breaks(text),
        0 <= offset < text.len(),
        line_start(text, i) <= offset < line_start(text, i + 1),
    ensures
        point_of(text, offset) == (Point {
            line: i as usize,
            column: (offset - line_start(text, i)) as usize,
        }),
{
    lemma_consumed_plain(text, i);
    lemma_point_of_byte_in_line(text, offset, i);
}

/// An offset at or behind the end of the text has the origin as its point.
pub proof fn lemma_point_of_end(text: Seq<u8>, offset: int)
    requires
        offset >= text.len(),
    ensures
        point_of(text, offset) == origin(),
{
}

/// The span of an empty range starts where it ends.
pub proof fn lemma_singleton_span(text: Seq<u8>, byte: usize, id: NodeId)
    ensures
        span_of(text, ByteRange(Byte(byte), Byte(byte), id)).0 == span_of(
            text,
            ByteRange(Byte(byte), Byte(byte), id),
        ).1,
{
}

} // verus!
