//! Position mapper: converts byte offsets into the source text to zero-based
//! line/character coordinates. Columns count characters (Unicode scalar
//! values), not bytes, so a multi-byte character advances the column by one.

use vstd::prelude::*;
use vstd::utf8::is_continuation_byte;
use crate::Span;

verus! {

/// Zero-based line and column of a location in source text.
#[derive(Clone, Copy, PartialEq, Eq, Structural)]
pub struct Position {
    pub line: u32,
    pub character: u32,
}

/// Start and end position of a region of source text.
#[derive(Clone, Copy, PartialEq, Eq, Structural)]
pub struct Range {
    pub start: Position,
    pub end: Position,
}

/// Number of line breaks among the first `n` bytes of `s`.
pub open spec fn line_count(s: Seq<u8>, n: int) -> nat
    recommends
        n <= s.len(),
    decreases n,
{
    if n <= 0 {
        0
    } else {
        line_count(s, n - 1) + if s[n - 1] == 0x0au8 {
            1nat
        } else {
            0nat
        }
    }
}

/// Number of characters among the first `n` bytes of `s` since the last line
/// break (or the start of the text). A byte begins a character exactly when it
/// is not a UTF-8 continuation byte.
pub open spec fn column_count(s: Seq<u8>, n: int) -> nat
    recommends
        n <= s.len(),
    decreases n,
{
    if n <= 0 {
        0
    } else if s[n - 1] == 0x0au8 {
        0
    } else {
        column_count(s, n - 1) + if is_continuation_byte(s[n - 1]) {
            0nat
        } else {
            1nat
        }
    }
}

/// The scan stops at the requested offset or at the end of the text,
/// whichever comes first.
pub open spec fn cut(s: Seq<u8>, offset: int) -> int {
    if offset <= s.len() {
        offset
    } else {
        s.len() as int
    }
}

/// The position that the mapper assigns to a byte offset.
pub open spec fn spec_position(s: Seq<u8>, offset: int) -> Position {
    Position {
        line: line_count(s, cut(s, offset)) as u32,
        character: column_count(s, cut(s, offset)) as u32,
    }
}

/// The range that the mapper assigns to a span: both endpoints are mapped
/// independently.
pub open spec fn spec_range(s: Seq<u8>, span: Span) -> Range {
    Range { start: spec_position(s, span.start as int), end: spec_position(s, span.end as int) }
}

/// The range of the interior of a quoted literal whose span includes one
/// delimiter byte on each side.
pub open spec fn spec_literal_interior_range(s: Seq<u8>, span: Span) -> Range {
    Range {
        start: spec_position(s, span.start + 1),
        end: spec_position(s, span.end - 1),
    }
}

proof fn lemma_counts_bounded(s: Seq<u8>, n: int)
    requires
        0 <= n,
    ensures
        line_count(s, n) <= n,
        column_count(s, n) <= n,
    decreases n,
{
    if n > 0 {
        lemma_counts_bounded(s, n - 1);
    }
}

/// Convert a byte offset to the line and column position of that offset.
pub fn offset_to_position(source: &[u8], offset: u32) -> (p: Position)
    ensures
        p == spec_position(source@, offset as int),
{
    let n: usize = source.len();
    let mut line: u32 = 0;
    let mut character: u32 = 0;
    let mut i: usize = 0;
    while i < n && i < offset as usize
        invariant
            i <= n,
            n == source@.len(),
            i <= offset,
            line == line_count(source@, i as int),
            character == column_count(source@, i as int),
            line <= i,
            character <= i,
        decreases n - i,
    {
        let b = source[i];
        if b == 0x0a {
            line = line + 1;
            character = 0;
        } else if b < 0x80 || b >= 0xc0 {
            character = character + 1;
        }
        i = i + 1;
    }
    proof {
        assert(i as int == cut(source@, offset as int));
    }
    Position { line, character }
}

/// Convert a span to a range by mapping both endpoints.
pub fn span_to_range(source: &[u8], span: Span) -> (r: Range)
    ensures
        r == spec_range(source@, span),
{
    Range {
        start: offset_to_position(source, span.start),
        end: offset_to_position(source, span.end),
    }
}

/// Convert the span of a quoted string literal to the range of its interior:
/// one delimiter byte is skipped on each side. This assumes exactly one
/// delimiter byte per side and makes no adjustment for escape sequences.
pub fn string_literal_to_range(source: &[u8], span: Span) -> (r: Range)
    requires
        span.start < span.end,
    ensures
        r == spec_literal_interior_range(source@, span),
{
    Range {
        start: offset_to_position(source, span.start + 1),
        end: offset_to_position(source, span.end - 1),
    }
}

/// `a` comes strictly before `b` in the source text.
pub open spec fn position_lt(a: Position, b: Position) -> bool {
    a.line < b.line || (a.line == b.line && a.character < b.character)
}

/// Processing one byte that begins a character moves the position strictly
/// forward: a line break starts a new line, any other character advances the
/// column.
proof fn lemma_position_step(s: Seq<u8>, n: int)
    requires
        0 <= n < s.len(),
        s.len() <= 0xffff_ffff,
        !is_continuation_byte(s[n]),
    ensures
        position_lt(spec_position(s, n), spec_position(s, n + 1)),
{
    lemma_counts_bounded(s, n);
}

/// The interior range of a quoted literal lies strictly inside the range of
/// the literal's full span: its start is strictly after the raw start and its
/// end strictly before the raw end, provided the delimiter bytes each begin a
/// character (they are single-byte quote characters).
pub proof fn lemma_literal_interior_strictly_inside(s: Seq<u8>, span: Span)
    requires
        span.start < span.end,
        span.end <= s.len(),
        s.len() <= 0xffff_ffff,
        !is_continuation_byte(s[span.start as int]),
        !is_continuation_byte(s[span.end - 1]),
    ensures
        position_lt(spec_range(s, span).start, spec_literal_interior_range(s, span).start),
        position_lt(spec_literal_interior_range(s, span).end, spec_range(s, span).end),
{
    lemma_position_step(s, span.start as int);
    lemma_position_step(s, span.end - 1);
}

} // verus!
