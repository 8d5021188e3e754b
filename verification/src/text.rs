//! The line structure of a source text.
//!
//! A text is a sequence of bytes. A line ends at a line feed; a carriage
//! return directly before that line feed belongs to the terminator. A last
//! line without a line feed counts if it is not empty.

use vstd::prelude::*;
use vstd::string::StringSliceAdditionalSpecFns;
use vstd::utf8::{
    decode_utf8, encode_utf8_decode_utf8, encode_utf8_valid_utf8, is_char_boundary,
    is_char_boundary_iff_not_is_continuation_byte, is_char_boundary_start_end_of_seq, valid_utf8,
    valid_utf8_split,
};

verus! {

/// The byte that ends a line.
pub const LINE_FEED: u8 = 10;

/// The byte that is part of the terminator when it stands directly before a line feed.
pub const CARRIAGE_RETURN: u8 = 13;

/// Index of the first line feed of `text` at or after `from`, or the length
/// of `text` where there is none.
pub open spec fn break_at(text: Seq<u8>, from: int) -> int
    decreases text.len() - from,
{
    if from >= text.len() {
        text.len() as int
    } else if text[from] == LINE_FEED {
        from
    } else {
        break_at(text, from + 1)
    }
}

/// Where the line after a break at `e` starts: behind the line feed, or at
/// the end of the text.
pub open spec fn after_break(text: Seq<u8>, e: int) -> int {
    if e < text.len() {
        e + 1
    } else {
        text.len() as int
    }
}

/// Offset at which line `i` starts; the length of `text` once the lines are used up.
pub open spec fn line_start(text: Seq<u8>, i: nat) -> int
    decreases i,
{
    if i == 0 {
        0
    } else {
        after_break(text, break_at(text, line_start(text, (i - 1) as nat)))
    }
}

/// Whether `text` has a line with index `i`.
pub open spec fn has_line(text: Seq<u8>, i: nat) -> bool {
    line_start(text, i) < text.len()
}

/// Where the content of the line that starts at `start` ends, given the break `e` of that line.
pub open spec fn content_end(text: Seq<u8>, start: int, e: int) -> int {
    if start < e && e < text.len() && text[e - 1] == CARRIAGE_RETURN {
        e - 1
    } else {
        e
    }
}

/// Offset just behind the content of line `i`; the terminator is not content.
pub open spec fn line_end(text: Seq<u8>, i: nat) -> int {
    content_end(text, line_start(text, i), break_at(text, line_start(text, i)))
}

/// Number of bytes in the content of line `i`.
pub open spec fn line_len(text: Seq<u8>, i: nat) -> nat {
    (line_end(text, i) - line_start(text, i)) as nat
}

/// The content of line `i`.
pub open spec fn line(text: Seq<u8>, i: nat) -> Seq<u8> {
    text.subrange(line_start(text, i), line_end(text, i))
}

/// What a scan has counted when it reaches line `i`: for every earlier line
/// its length, and one for its terminator.
pub open spec fn consumed(text: Seq<u8>, i: nat) -> nat
    decreases i,
{
    if i == 0 {
        0
    } else {
        consumed(text, (i - 1) as nat) + line_len(text, (i - 1) as nat) + 1
    }
}

/// `break_at` lies between `from` and the end, stands on a line feed unless it
/// is the end, and passes over no line feed.
pub proof fn lemma_break_at(text: Seq<u8>, from: int)
    requires
        0 <= from <= text.len(),
    ensures
        from <= break_at(text, from) <= text.len(),
        break_at(text, from) < text.len() ==> text[break_at(text, from)] == LINE_FEED,
        forall|j: int| from <= j < break_at(text, from) ==> text[j] != LINE_FEED,
    decreases text.len() - from,
{
    if from < text.len() && text[from] != LINE_FEED {
        lemma_break_at(text, from + 1);
    }
}

/// A position that stands on a line feed, or at the end, and is reached from
/// `from` without passing a line feed, is the break of `from`.
pub proof fn lemma_break_at_unique(text: Seq<u8>, from: int, e: int)
    requires
        0 <= from <= e <= text.len(),
        e < text.len() ==> text[e] == LINE_FEED,
        forall|j: int| from <= j < e ==> text[j] != LINE_FEED,
    ensures
        break_at(text, from) == e,
    decreases e - from,
{
    if from < e {
        lemma_break_at_unique(text, from + 1, e);
    }
}

/// Line starts lie inside the text or at its end.
pub proof fn lemma_line_start_bounds(text: Seq<u8>, i: nat)
    ensures
        0 <= line_start(text, i) <= text.len(),
    decreases i,
{
    if i > 0 {
        lemma_line_start_bounds(text, (i - 1) as nat);
        lemma_break_at(text, line_start(text, (i - 1) as nat));
    }
}

/// A line that exists takes up at least one byte: the next line starts behind
/// its start, and its content ends between its start and its break.
pub proof fn lemma_line_step(text: Seq<u8>, i: nat)
    requires
        has_line(text, i),
    ensures
        line_start(text, i) <= line_end(text, i) <= break_at(text, line_start(text, i)),
        line_start(text, i) < line_start(text, i + 1) <= text.len(),
{
    lemma_line_start_bounds(text, i);
    lemma_break_at(text, line_start(text, i));
}

/// Later lines start no earlier.
pub proof fn lemma_line_starts_ordered(text: Seq<u8>, i: nat, j: nat)
    requires
        i <= j,
    ensures
        line_start(text, i) <= line_start(text, j),
    decreases j,
{
    if i < j {
        lemma_line_starts_ordered(text, i, (j - 1) as nat);
        lemma_line_start_bounds(text, (j - 1) as nat);
        lemma_line_start_bounds(text, j);
        if has_line(text, (j - 1) as nat) {
            lemma_line_step(text, (j - 1) as nat);
        }
    }
}

/// The lines of a text are numbered without gaps.
pub proof fn lemma_has_line_below(text: Seq<u8>, i: nat, j: nat)
    requires
        i <= j,
        has_line(text, j),
    ensures
        has_line(text, i),
{
    lemma_line_starts_ordered(text, i, j);
}

/// A text has no more lines than bytes.
pub proof fn lemma_line_index_bound(text: Seq<u8>, i: nat)
    requires
        has_line(text, i),
    ensures
        i <= line_start(text, i),
        i < text.len(),
    decreases i,
{
    if i > 0 {
        lemma_has_line_below(text, (i - 1) as nat, i);
        lemma_line_index_bound(text, (i - 1) as nat);
        lemma_line_step(text, (i - 1) as nat);
    }
}

/// The count grows with the line index, by at least one a line.
pub proof fn lemma_consumed_ordered(text: Seq<u8>, i: nat, j: nat)
    requires
        i <= j,
    ensures
        consumed(text, i) + (j - i) <= consumed(text, j),
    decreases j,
{
    if i < j {
        lemma_consumed_ordered(text, i, (j - 1) as nat);
    }
}

/// The count never runs ahead of the text: where line `i` exists, it is at
/// most the offset at which that line starts.
pub proof fn lemma_consumed_le_start(text: Seq<u8>, i: nat)
    requires
        has_line(text, i),
    ensures
        consumed(text, i) <= line_start(text, i),
    decreases i,
{
    if i > 0 {
        let k = (i - 1) as nat;
        lemma_has_line_below(text, k, i);
        lemma_consumed_le_start(text, k);
        lemma_line_step(text, k);
    }
}

/// In well-formed UTF-8 a character starts at every byte below 128, and
/// another one, or nothing, directly behind it.
pub proof fn lemma_boundary_at_ascii(text: Seq<u8>, p: int)
    requires
        valid_utf8(text),
        0 <= p < text.len(),
        text[p] < 128,
    ensures
        is_char_boundary(text, p),
        is_char_boundary(text, p + 1),
{
    is_char_boundary_iff_not_is_continuation_byte(text, p);
    valid_utf8_split(text, p);
    let tail = text.subrange(p, text.len() as int);
    if p + 1 == text.len() {
        is_char_boundary_start_end_of_seq(text);
    } else {
        assert(is_char_boundary(tail, 1)) by {
            reveal_with_fuel(is_char_boundary, 2);
        }
        is_char_boundary_iff_not_is_continuation_byte(tail, 1);
        assert(tail[1] == text[p + 1]);
        is_char_boundary_iff_not_is_continuation_byte(text, p + 1);
    }
}

/// In well-formed UTF-8 every line starts at a character boundary, and its
/// content ends at one.
pub proof fn lemma_line_at_boundaries(text: Seq<u8>, i: nat)
    requires
        valid_utf8(text),
    ensures
        is_char_boundary(text, line_start(text, i)),
        is_char_boundary(text, line_end(text, i)),
{
    is_char_boundary_start_end_of_seq(text);
    lemma_line_start_bounds(text, i);
    let s = line_start(text, i);
    let e = break_at(text, s);
    lemma_break_at(text, s);
    if e < text.len() {
        lemma_boundary_at_ascii(text, e);
        if line_end(text, i) != e {
            lemma_boundary_at_ascii(text, e - 1);
        }
    }
    if i > 0 {
        let k = (i - 1) as nat;
        lemma_line_start_bounds(text, k);
        let b = break_at(text, line_start(text, k));
        lemma_break_at(text, line_start(text, k));
        if b < text.len() {
            lemma_boundary_at_ascii(text, b);
        }
    }
}

/// Finds the end of the line that holds `from`.
pub fn find_break(bytes: &[u8], from: usize) -> (e: usize)
    requires
        from <= bytes@.len(),
    ensures
        e == break_at(bytes@, from as int),
        from <= e <= bytes@.len(),
{
    let mut e: usize = from;
    while e < bytes.len() && bytes[e] != LINE_FEED
        invariant
            from <= e <= bytes@.len(),
            forall|j: int| from <= j < e ==> bytes@[j] != LINE_FEED,
        decreases bytes@.len() - e,
    {
        e = e + 1;
    }
    proof {
        lemma_break_at_unique(bytes@, from as int, e as int);
    }
    e
}

/// For the line that starts at `start`: where its content ends and where the
/// next line starts.
pub fn line_extent(bytes: &[u8], start: usize) -> (r: (usize, usize))
    requires
        start < bytes@.len(),
    ensures
        r.0 == content_end(bytes@, start as int, break_at(bytes@, start as int)),
        r.1 == after_break(bytes@, break_at(bytes@, start as int)),
        start <= r.0 <= r.1 <= bytes@.len(),
        start < r.1,
{
    let e = find_break(bytes, start);
    let end = if start < e && e < bytes.len() && bytes[e - 1] == CARRIAGE_RETURN {
        e - 1
    } else {
        e
    };
    let next = if e < bytes.len() {
        e + 1
    } else {
        bytes.len()
    };
    (end, next)
}

/// The part of `code` from byte `from` up to byte `to`.
pub fn slice_text<'a>(code: &'a str, from: usize, to: usize) -> (r: &'a str)
    requires
        from <= to <= code.spec_bytes().len(),
        is_char_boundary(code.spec_bytes(), from as int),
        is_char_boundary(code.spec_bytes(), to as int),
    ensures
        r.spec_bytes() == code.spec_bytes().subrange(from as int, to as int),
        r@ == decode_utf8(code.spec_bytes().subrange(from as int, to as int)),
{
    let ghost text = code.spec_bytes();
    proof {
        encode_utf8_valid_utf8(code@);
    }
    let (head, _) = code.split_at(to);
    proof {
        valid_utf8_split(text, to as int);
        let h = text.subrange(0, to as int);
        assert(head.spec_bytes() == h);
        if from < to {
            is_char_boundary_iff_not_is_continuation_byte(text, from as int);
            is_char_boundary_iff_not_is_continuation_byte(h, from as int);
        } else {
            is_char_boundary_start_end_of_seq(h);
        }
    }
    let (_, r) = head.split_at(from);
    proof {
        assert(r.spec_bytes() =~= text.subrange(from as int, to as int));
        encode_utf8_decode_utf8(r@);
    }
    r
}

} // verus!
