//! Lines of formatted output: how a byte stream falls into lines, each line
//! keeping its terminator.

use vstd::prelude::*;
use crate::text::NEWLINE;

verus! {

/// A complete line: it ends in the line terminator and holds no other.
pub open spec fn is_line(line: Seq<u8>) -> bool {
    &&& line.len() > 0
    &&& line.last() == NEWLINE
    &&& newline_free(line.drop_last())
}

/// No byte of `bytes` is the line terminator.
pub open spec fn newline_free(bytes: Seq<u8>) -> bool {
    forall|i: int| 0 <= i < bytes.len() ==> bytes[i] != NEWLINE
}

/// Whether the next byte after `text` begins a new line: nothing was written
/// yet, or the last byte written ended a line.
pub open spec fn at_line_start(text: Seq<u8>) -> bool {
    text.len() == 0 || text.last() == NEWLINE
}

/// The lines of `text`, in order. A byte at the start of a line opens a new
/// line; any other byte joins the line before it. Every line keeps its
/// terminator; only the last line can be without one.
pub open spec fn split_lines(text: Seq<u8>) -> Seq<Seq<u8>>
    decreases text.len(),
{
    if text.len() == 0 {
        Seq::empty()
    } else {
        let before = split_lines(text.drop_last());
        if at_line_start(text.drop_last()) {
            before.push(seq![text.last()])
        } else {
            before.drop_last().push(before.last().push(text.last()))
        }
    }
}

/// The lines of `text` that are complete: all of them, or all but an
/// unterminated last one.
pub open spec fn complete_lines(text: Seq<u8>) -> Seq<Seq<u8>> {
    if at_line_start(text) {
        split_lines(text)
    } else {
        split_lines(text).drop_last()
    }
}

/// The unterminated last line of `text`; empty where `text` ends with a
/// complete line.
pub open spec fn open_line(text: Seq<u8>) -> Seq<u8> {
    if at_line_start(text) {
        Seq::empty()
    } else {
        split_lines(text).last()
    }
}

/// The bytes of `lines` one after the other.
pub open spec fn join_lines(lines: Seq<Seq<u8>>) -> Seq<u8>
    decreases lines.len(),
{
    if lines.len() == 0 {
        Seq::empty()
    } else {
        join_lines(lines.drop_last()) + lines.last()
    }
}

/// The shape of what `split_lines` gives: no line is empty, every line but
/// the last is complete, and the last line holds no terminator before its
/// last byte, which is the last byte of the text.
pub proof fn lemma_split_lines_shape(text: Seq<u8>)
    ensures
        (split_lines(text).len() == 0) == (text.len() == 0),
        forall|k: int| 0 <= k < split_lines(text).len() - 1 ==> is_line(#[trigger] split_lines(text)[k]),
        text.len() > 0 ==> split_lines(text).last().len() > 0 && split_lines(text).last().last()
            == text.last() && newline_free(split_lines(text).last().drop_last()),
    decreases text.len(),
{
    if text.len() > 0 {
        let head = text.drop_last();
        let before = split_lines(head);
        let lines = split_lines(text);
        lemma_split_lines_shape(head);
        if at_line_start(head) {
            assert forall|k: int| 0 <= k < lines.len() - 1 implies is_line(#[trigger] lines[k]) by {
                assert(lines[k] == before[k]);
                if k == before.len() - 1 {
                    assert(before.last().last() == head.last());
                }
            }
            assert(lines.last().drop_last() =~= Seq::<u8>::empty());
        } else {
            assert forall|k: int| 0 <= k < lines.len() - 1 implies is_line(#[trigger] lines[k]) by {
                assert(lines[k] == before[k]);
            }
            let open_line = before.last();
            assert(lines.last() == open_line.push(text.last()));
            assert(lines.last().drop_last() =~= open_line);
            assert(open_line.last() == head.last());
            assert forall|i: int| 0 <= i < open_line.len() implies open_line[i] != NEWLINE by {
                if i < open_line.len() - 1 {
                    assert(open_line.drop_last()[i] != NEWLINE);
                }
            }
        }
    }
}

/// Splitting loses nothing: the lines of a text, joined, are the text.
pub proof fn lemma_join_split(text: Seq<u8>)
    ensures
        join_lines(split_lines(text)) == text,
    decreases text.len(),
{
    if text.len() > 0 {
        let head = text.drop_last();
        let before = split_lines(head);
        let lines = split_lines(text);
        lemma_join_split(head);
        lemma_split_lines_shape(head);
        if at_line_start(head) {
            assert(lines.drop_last() =~= before);
            assert(head + seq![text.last()] =~= text);
        } else {
            let open_line = before.last();
            assert(lines.drop_last() =~= before.drop_last());
            assert(join_lines(before) == join_lines(before.drop_last()) + open_line);
            assert(join_lines(before.drop_last()) + open_line.push(text.last()) =~= (join_lines(
                before.drop_last(),
            ) + open_line).push(text.last()));
            assert(head.push(text.last()) =~= text);
        }
    } else {
        assert(join_lines(split_lines(text)) =~= text);
    }
}

/// One more byte either joins the open line or, being the terminator,
/// completes it.
pub proof fn lemma_lines_push(text: Seq<u8>, byte: u8)
    ensures
        byte == NEWLINE ==> complete_lines(text.push(byte)) == complete_lines(text).push(
            open_line(text).push(byte),
        ) && open_line(text.push(byte)) == Seq::<u8>::empty(),
        byte != NEWLINE ==> complete_lines(text.push(byte)) == complete_lines(text) && open_line(
            text.push(byte),
        ) == open_line(text).push(byte),
{
    let more = text.push(byte);
    assert(more.drop_last() =~= text);
    assert(more.last() == byte);
    lemma_split_lines_shape(text);
    if at_line_start(text) {
        assert(seq![byte] =~= Seq::<u8>::empty().push(byte));
        if byte != NEWLINE {
            assert(split_lines(more).drop_last() =~= split_lines(text));
        }
    } else {
        if byte != NEWLINE {
            assert(split_lines(more).drop_last() =~= split_lines(text).drop_last());
        }
    }
}

} // verus!
