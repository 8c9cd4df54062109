//! Byte-level reading of one line of formatted output: indentation, leading
//! and trailing markers.

use vstd::prelude::*;

verus! {

/// The line terminator.
pub const NEWLINE: u8 = 10;

/// The indentation byte.
pub const SPACE: u8 = 32;

/// `"`
pub const QUOTE: u8 = 34;

/// `:`
pub const COLON: u8 = 58;

/// `[`
pub const OPEN_BRACKET: u8 = 91;

/// `]`
pub const CLOSE_BRACKET: u8 = 93;

/// `{`
pub const OPEN_BRACE: u8 = 123;

/// `}`
pub const CLOSE_BRACE: u8 = 125;

/// The position of the first byte at or after `from` that is not a space, or
/// the length of `line` if there is none.
pub open spec fn indent_end(line: Seq<u8>, from: int) -> int
    decreases line.len() - from,
{
    if 0 <= from < line.len() && line[from] == SPACE {
        indent_end(line, from + 1)
    } else {
        from
    }
}

/// The number of spaces that `line` begins with.
pub open spec fn indent_width(line: Seq<u8>) -> int {
    indent_end(line, 0)
}

/// `line` without its indentation.
pub open spec fn trimmed(line: Seq<u8>) -> Seq<u8> {
    line.skip(indent_width(line))
}

/// The first byte of `line` after its indentation, if the line has one.
pub open spec fn first_mark(line: Seq<u8>) -> Option<u8> {
    if indent_width(line) < line.len() {
        Some(line[indent_width(line)])
    } else {
        None
    }
}

/// `: ` followed by `open` and the line terminator.
pub open spec fn nested_opening(open: u8) -> Seq<u8> {
    seq![COLON, SPACE, open, NEWLINE]
}

/// Whether `line` ends in a key's `: `, the opening byte `open` and the line
/// terminator.
pub open spec fn ends_with_opening(line: Seq<u8>, open: u8) -> bool {
    nested_opening(open).is_suffix_of(line)
}

/// What a member line of an object begins with when its key is written as
/// the bytes `name`: the quoted name and a colon.
pub open spec fn key_prefix(name: Seq<u8>) -> Seq<u8> {
    seq![QUOTE] + name + seq![QUOTE, COLON]
}

/// Whether `line`, after its indentation, begins with the quoted `name` and a
/// colon.
pub open spec fn begins_with_key(line: Seq<u8>, name: Seq<u8>) -> bool {
    key_prefix(name).is_prefix_of(trimmed(line))
}

/// Counts the spaces that `line` begins with.
pub fn count_indent(line: &[u8]) -> (width: usize)
    ensures
        width == indent_width(line@),
        width <= line@.len(),
{
    let mut i: usize = 0;
    while i < line.len() && line[i] == SPACE
        invariant
            i <= line@.len(),
            indent_end(line@, i as int) == indent_width(line@),
        decreases line@.len() - i,
    {
        i += 1;
    }
    i
}

/// Reads the first byte of `line` after its indentation.
pub fn leading_mark(line: &[u8]) -> (mark: Option<u8>)
    ensures
        mark == first_mark(line@),
{
    let width = count_indent(line);
    if width < line.len() {
        Some(line[width])
    } else {
        None
    }
}

/// Tests whether `line` ends in `: `, `open` and the line terminator.
pub fn has_nested_opening(line: &[u8], open: u8) -> (found: bool)
    ensures
        found == ends_with_opening(line@, open),
{
    let n = line.len();
    if n < 4 {
        return false;
    }
    let found = line[n - 4] == COLON && line[n - 3] == SPACE && line[n - 2] == open && line[n - 1]
        == NEWLINE;
    proof {
        let tail = line@.subrange(n - 4, n as int);
        let want = nested_opening(open);
        if found {
            assert(want =~= tail);
        } else {
            assert(tail[0] == line@[n - 4] && tail[1] == line@[n - 3] && tail[2] == line@[n - 2]
                && tail[3] == line@[n - 1]);
            assert(want[0] == COLON && want[1] == SPACE && want[2] == open && want[3] == NEWLINE);
        }
    }
    found
}

/// Tests whether `line`, after its indentation, begins with the quoted
/// `name` and a colon.
pub fn has_key(line: &[u8], name: &[u8]) -> (found: bool)
    ensures
        found == begins_with_key(line@, name@),
{
    let start = count_indent(line);
    let rest = line.len() - start;
    if name.len() > usize::MAX - 3 || rest < name.len() + 3 {
        return false;
    }
    let ghost want = key_prefix(name@);
    let ghost have = trimmed(line@).subrange(0, want.len() as int);
    assert(want.len() == name@.len() + 3);
    if line[start] != QUOTE {
        assert(have[0] != want[0]);
        return false;
    }
    let mut i: usize = 0;
    while i < name.len()
        invariant
            i <= name@.len(),
            start + name@.len() + 3 <= line@.len(),
            line@.len() <= usize::MAX,
            start == indent_width(line@),
            want == key_prefix(name@),
            have == trimmed(line@).subrange(0, want.len() as int),
            forall|j: int| 0 <= j < i ==> line@[start + 1 + j] == name@[j],
        decreases name@.len() - i,
    {
        if line[start + 1 + i] != name[i] {
            assert(have[1 + i] != want[1 + i]);
            return false;
        }
        i += 1;
    }
    let closed = line[start + 1 + name.len()] == QUOTE && line[start + 2 + name.len()] == COLON;
    proof {
        let n = name@.len() as int;
        if closed {
            assert forall|j: int| 0 <= j < want.len() implies have[j] == want[j] by {
                if 1 <= j <= n {
                    assert(line@[start + 1 + (j - 1)] == name@[j - 1]);
                }
            }
            assert(want =~= have);
        } else {
            assert(have[1 + n] != want[1 + n] || have[2 + n] != want[2 + n]);
        }
    }
    closed
}

} // verus!
