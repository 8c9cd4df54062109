//! The nesting context: whether the line being emitted lies inside an object
//! or an array, and at which element of the array.

use vstd::prelude::*;
use crate::text::{
    ends_with_opening, first_mark, has_nested_opening, leading_mark, CLOSE_BRACE, CLOSE_BRACKET,
    OPEN_BRACE, OPEN_BRACKET,
};

verus! {

/// Where the stream stands after the lines seen so far.
#[derive(Debug, Clone, Copy, PartialEq, Eq)]
pub struct NestingContext {
    /// The lines that follow are members of an object.
    pub in_object: bool,
    /// The lines that follow are elements of an array.
    pub in_array: bool,
    /// The position of the element that was emitted last in the array that
    /// was entered last; `None` until the first element of that array has
    /// been seen.
    pub array_index: Option<usize>,
}

/// Whether `line` closes a container: after its indentation it begins with
/// `}` or `]`.
pub open spec fn is_closing(line: Seq<u8>) -> bool {
    first_mark(line) == Some(CLOSE_BRACE) || first_mark(line) == Some(CLOSE_BRACKET)
}

/// Whether `line` opens an array: it ends in a key's `: [`, or it begins with
/// `[` and does not end in a key's `: {`.
pub open spec fn enters_array(line: Seq<u8>) -> bool {
    ends_with_opening(line, OPEN_BRACKET) || (!ends_with_opening(line, OPEN_BRACE) && first_mark(
        line,
    ) == Some(OPEN_BRACKET))
}

/// Whether `line` opens an object: it does not open an array, and it ends in
/// a key's `: {` or begins with `{`.
pub open spec fn enters_object(line: Seq<u8>) -> bool {
    !enters_array(line) && (ends_with_opening(line, OPEN_BRACE) || first_mark(line) == Some(
        OPEN_BRACE,
    ))
}

impl NestingContext {
    /// The context outside of any container.
    pub open spec fn outside() -> NestingContext {
        NestingContext { in_object: false, in_array: false, array_index: None }
    }

    /// The context just inside an array, before its first element.
    pub open spec fn array() -> NestingContext {
        NestingContext { in_object: false, in_array: true, array_index: None }
    }

    /// The position of the element that follows the one emitted last: zero
    /// for the first element, then one more each time. The count stops at the
    /// largest position that a path can name.
    pub open spec fn next_index(self) -> Option<usize> {
        match self.array_index {
            None => Some(0usize),
            Some(i) => if i < usize::MAX {
                Some((i + 1) as usize)
            } else {
                Some(i)
            },
        }
    }

    /// The position in the array that `line` stands at: in an array, every
    /// line but a closing one is the next element.
    pub open spec fn element_index(self, line: Seq<u8>) -> Option<usize> {
        if self.in_array && !is_closing(line) {
            self.next_index()
        } else {
            self.array_index
        }
    }

    /// The context that the line after `line` is emitted in.
    ///
    /// A line that opens an array, alone or as the value of a key, enters
    /// array context, and the count of elements starts anew. A line that
    /// opens an object enters object context. A closing line leaves the
    /// container for no context at all. Any other line keeps the context.
    ///
    /// Only entering an array resets the position. Every other line leaves
    /// it at the position that the line itself stands at: a line met in an
    /// array counts as one element, also where it opens an object, and a
    /// closing line counts as none.
    pub open spec fn after(self, line: Seq<u8>) -> NestingContext {
        if enters_array(line) {
            NestingContext::array()
        } else if enters_object(line) {
            NestingContext {
                in_object: true,
                in_array: false,
                array_index: self.element_index(line),
            }
        } else if is_closing(line) {
            NestingContext { in_object: false, in_array: false, array_index: self.array_index }
        } else {
            NestingContext {
                in_object: self.in_object,
                in_array: self.in_array,
                array_index: self.element_index(line),
            }
        }
    }

    /// The context before the first line.
    pub fn new() -> (context: NestingContext)
        ensures
            context == NestingContext::outside(),
    {
        NestingContext { in_object: false, in_array: false, array_index: None }
    }

    /// Computes the position in the array that `line` stands at.
    pub fn index_of(&self, line: &[u8]) -> (index: Option<usize>)
        ensures
            index == self.element_index(line@),
    {
        if self.in_array && !closes_container(line) {
            match self.array_index {
                None => Some(0),
                Some(i) => if i < usize::MAX {
                    Some(i + 1)
                } else {
                    Some(i)
                },
            }
        } else {
            self.array_index
        }
    }

    /// Moves the context past `line`.
    pub fn advance(&mut self, line: &[u8])
        ensures
            *final(self) == old(self).after(line@),
    {
        let mark = leading_mark(line);
        let nested_object = has_nested_opening(line, OPEN_BRACE);
        if has_nested_opening(line, OPEN_BRACKET) || (!nested_object && mark == Some(OPEN_BRACKET)) {
            *self = NestingContext { in_object: false, in_array: true, array_index: None };
        } else if nested_object || mark == Some(OPEN_BRACE) {
            *self = NestingContext {
                in_object: true,
                in_array: false,
                array_index: self.index_of(line),
            };
        } else if mark == Some(CLOSE_BRACE) || mark == Some(CLOSE_BRACKET) {
            self.in_object = false;
            self.in_array = false;
        } else {
            self.array_index = self.index_of(line);
        }
    }
}

/// Tests whether `line` closes a container.
pub fn closes_container(line: &[u8]) -> (closing: bool)
    ensures
        closing == is_closing(line@),
{
    let mark = leading_mark(line);
    mark == Some(CLOSE_BRACE) || mark == Some(CLOSE_BRACKET)
}

} // verus!
