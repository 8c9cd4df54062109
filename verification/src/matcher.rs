//! The path matcher: which line of the output stands for the node that a
//! navigation path selects.
//!
//! The lines are read once, in order. The head of the path is compared with
//! each line in the context that the lines before it have set up; a line that
//! matches consumes the head. The line that consumes the last segment is the
//! selected one.

use vstd::prelude::*;
use vstd::utf8::encode_utf8;
use crate::context::{closes_container, is_closing, NestingContext};
use crate::path::{PathSegment, Segment};
use crate::text::{begins_with_key, has_key};

verus! {

/// Whether `segment` names the position that `line` stands at, `context`
/// being the context that the lines before it have left.
///
/// A key matches a line of an object that begins with the quoted key and a
/// colon. An index matches the line of an array that is the element at that
/// position. A closing line matches nothing.
pub open spec fn segment_matches(context: NestingContext, segment: Segment, line: Seq<u8>) -> bool {
    !is_closing(line) && match segment {
        Segment::Key(name) => context.in_object && begins_with_key(line, encode_utf8(name)),
        Segment::Index(position) => context.in_array && match context.element_index(line) {
            Some(index) => index == position,
            None => false,
        },
    }
}

/// What the matcher carries from line to line.
pub ghost struct ScanState {
    /// The nesting context that the lines read so far have left.
    pub context: NestingContext,
    /// How many segments of the path have been consumed.
    pub consumed: nat,
}

/// The state before the first line.
pub open spec fn scan_start() -> ScanState {
    ScanState { context: NestingContext::outside(), consumed: 0 }
}

/// Whether `line` matches the head of what is left of `path`.
pub open spec fn head_matches(path: Seq<Segment>, state: ScanState, line: Seq<u8>) -> bool {
    state.consumed < path.len() && segment_matches(
        state.context,
        path[state.consumed as int],
        line,
    )
}

/// Whether `line` is highlighted: it matches the head of what is left of
/// `path`, and that head is the last segment.
pub open spec fn line_highlighted(path: Seq<Segment>, state: ScanState, line: Seq<u8>) -> bool {
    head_matches(path, state, line) && state.consumed + 1 == path.len()
}

/// The state after `line`: a match consumes the head of the path, and the
/// context moves past the line.
pub open spec fn scan_step(path: Seq<Segment>, state: ScanState, line: Seq<u8>) -> ScanState {
    ScanState {
        context: state.context.after(line),
        consumed: if head_matches(path, state, line) {
            state.consumed + 1
        } else {
            state.consumed
        },
    }
}

/// The state after all of `lines`, read in order from the start.
pub open spec fn scan(path: Seq<Segment>, lines: Seq<Seq<u8>>) -> ScanState
    decreases lines.len(),
{
    if lines.len() == 0 {
        scan_start()
    } else {
        scan_step(path, scan(path, lines.drop_last()), lines.last())
    }
}

/// Whether line `k` of `lines` is highlighted for `path`.
pub open spec fn highlight_at(path: Seq<Segment>, lines: Seq<Seq<u8>>, k: int) -> bool {
    line_highlighted(path, scan(path, lines.take(k)), lines[k])
}

/// The nesting context after all of `lines`, read in order from the start.
pub open spec fn context_after(lines: Seq<Seq<u8>>) -> NestingContext
    decreases lines.len(),
{
    if lines.len() == 0 {
        NestingContext::outside()
    } else {
        context_after(lines.drop_last()).after(lines.last())
    }
}

/// The path has no part in the nesting context, and no more segments are
/// consumed than the path has.
pub proof fn lemma_scan_context(path: Seq<Segment>, lines: Seq<Seq<u8>>)
    ensures
        scan(path, lines).context == context_after(lines),
        scan(path, lines).consumed <= path.len(),
    decreases lines.len(),
{
    if lines.len() > 0 {
        lemma_scan_context(path, lines.drop_last());
    }
}

/// An element's position is less than the number of lines read.
pub proof fn lemma_index_below_line_count(lines: Seq<Seq<u8>>)
    ensures
        context_after(lines).array_index matches Some(index) ==> index < lines.len(),
    decreases lines.len(),
{
    if lines.len() > 0 {
        lemma_index_below_line_count(lines.drop_last());
    }
}

/// The highlighted line is one that the last segment of the path matches:
/// for a key, a line of an object that begins with the key; for an index,
/// the element of an array at that position. It is no closing line.
pub proof fn lemma_highlight_matches_last(path: Seq<Segment>, lines: Seq<Seq<u8>>, k: int)
    requires
        0 <= k < lines.len(),
        highlight_at(path, lines, k),
    ensures
        path.len() > 0,
        segment_matches(context_after(lines.take(k)), path.last(), lines[k]),
        !is_closing(lines[k]),
{
    lemma_scan_context(path, lines.take(k));
}

/// With an empty path no line is highlighted.
pub proof fn lemma_empty_path_highlights_nothing(lines: Seq<Seq<u8>>, k: int)
    ensures
        !highlight_at(Seq::empty(), lines, k),
{
}

/// Where the first segment of a path matches no line, each line taken in the
/// context that the lines before it have left, no segment is ever consumed
/// and no line is highlighted.
pub proof fn lemma_unmatched_head(path: Seq<Segment>, lines: Seq<Seq<u8>>)
    requires
        path.len() > 0,
        forall|k: int|
            0 <= k < lines.len() ==> !segment_matches(
                #[trigger] context_after(lines.take(k)),
                path[0],
                lines[k],
            ),
    ensures
        scan(path, lines).consumed == 0,
        forall|k: int| 0 <= k < lines.len() ==> !highlight_at(path, lines, k),
    decreases lines.len(),
{
    if lines.len() > 0 {
        let before = lines.drop_last();
        assert forall|k: int| 0 <= k < before.len() implies !segment_matches(
            #[trigger] context_after(before.take(k)),
            path[0],
            before[k],
        ) by {
            assert(before.take(k) =~= lines.take(k));
        }
        lemma_unmatched_head(path, before);
        lemma_scan_context(path, before);
        assert(lines.take(lines.len() - 1) =~= before);
        assert(!segment_matches(context_after(lines.take(lines.len() - 1)), path[0], lines.last()));
        assert forall|k: int| 0 <= k < lines.len() implies !highlight_at(path, lines, k) by {
            if k < before.len() {
                assert(before.take(k) =~= lines.take(k));
                assert(!highlight_at(path, before, k));
            }
        }
    }
}

/// Segments are consumed in order and never given back: after more lines,
/// at least as many are consumed.
pub proof fn lemma_consumed_grows(path: Seq<Segment>, lines: Seq<Seq<u8>>, j: int, k: int)
    requires
        0 <= j <= k <= lines.len(),
    ensures
        scan(path, lines.take(j)).consumed <= scan(path, lines.take(k)).consumed,
    decreases k - j,
{
    if j < k {
        lemma_consumed_grows(path, lines, j, k - 1);
        assert(lines.take(k).drop_last() =~= lines.take(k - 1));
    }
}

/// At most one line is highlighted: the line that consumes the last segment
/// leaves nothing for the lines after it to match.
pub proof fn lemma_one_highlight(path: Seq<Segment>, lines: Seq<Seq<u8>>, j: int, k: int)
    requires
        0 <= j < k < lines.len(),
        highlight_at(path, lines, j),
    ensures
        !highlight_at(path, lines, k),
{
    assert(lines.take(j + 1).drop_last() =~= lines.take(j));
    assert(lines.take(j + 1).last() == lines[j]);
    assert(scan(path, lines.take(j + 1)).consumed == path.len());
    lemma_consumed_grows(path, lines, j + 1, k);
}

/// Where a path begins with a key and no line begins with that key, quoted
/// and followed by a colon, no line is highlighted.
pub proof fn lemma_absent_key(path: Seq<Segment>, lines: Seq<Seq<u8>>, name: Seq<char>)
    requires
        path.len() > 0,
        path[0] == Segment::Key(name),
        forall|k: int| 0 <= k < lines.len() ==> !begins_with_key(#[trigger] lines[k], encode_utf8(name)),
    ensures
        forall|k: int| 0 <= k < lines.len() ==> !highlight_at(path, lines, k),
{
    lemma_unmatched_head(path, lines);
}

/// Where a path begins with an index that is not less than the number of
/// lines, no line is highlighted: no array of the output has that many
/// elements.
pub proof fn lemma_absent_index(path: Seq<Segment>, lines: Seq<Seq<u8>>, position: nat)
    requires
        path.len() > 0,
        path[0] == Segment::Index(position),
        position >= lines.len(),
    ensures
        forall|k: int| 0 <= k < lines.len() ==> !highlight_at(path, lines, k),
{
    assert forall|k: int| 0 <= k < lines.len() implies !segment_matches(
        #[trigger] context_after(lines.take(k)),
        path[0],
        lines[k],
    ) by {
        lemma_index_below_line_count(lines.take(k));
    }
    lemma_unmatched_head(path, lines);
}

/// Tests whether `segment` names the position that `line` stands at.
pub fn matches_segment(context: &NestingContext, segment: &PathSegment, line: &[u8]) -> (hit: bool)
    ensures
        hit == segment_matches(*context, segment@, line@),
{
    if closes_container(line) {
        return false;
    }
    match segment {
        PathSegment::Key(name) => context.in_object && has_key(line, name.as_str().as_bytes()),
        PathSegment::Index(position) => {
            if !context.in_array {
                return false;
            }
            match context.index_of(line) {
                Some(index) => index == *position,
                None => false,
            }
        },
    }
}

} // verus!
