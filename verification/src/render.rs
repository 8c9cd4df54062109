//! Rendered lines: the text of each line of the output and whether it is
//! highlighted.

use vstd::prelude::*;
use crate::lines::split_lines;
use crate::matcher::{highlight_at, line_highlighted, scan};
use crate::path::Segment;

verus! {

/// One line of the output.
#[derive(Debug, Clone, PartialEq, Eq)]
pub struct RenderedLine {
    /// The bytes of the line, indentation and line terminator included.
    pub text: Vec<u8>,
    /// Whether the line stands for the selected node.
    pub highlighted: bool,
}

/// The mathematical value of a [`RenderedLine`].
pub ghost struct Rendered {
    pub text: Seq<u8>,
    pub highlighted: bool,
}

impl View for RenderedLine {
    type V = Rendered;

    open spec fn view(&self) -> Rendered {
        Rendered { text: self.text@, highlighted: self.highlighted }
    }
}

/// The values of `lines`, in order.
pub open spec fn views(lines: Seq<RenderedLine>) -> Seq<Rendered> {
    Seq::new(lines.len(), |k: int| lines[k]@)
}

/// `lines` with the highlight that `path` gives each of them.
pub open spec fn render(path: Seq<Segment>, lines: Seq<Seq<u8>>) -> Seq<Rendered> {
    Seq::new(
        lines.len(),
        |k: int| Rendered { text: lines[k], highlighted: highlight_at(path, lines, k) },
    )
}

/// The lines of `text` with the highlight that `path` gives each of them.
pub open spec fn render_lines(text: Seq<u8>, path: Seq<Segment>) -> Seq<Rendered> {
    render(path, split_lines(text))
}

/// The texts of `lines`, in order.
pub open spec fn texts(lines: Seq<Rendered>) -> Seq<Seq<u8>> {
    Seq::new(lines.len(), |k: int| lines[k].text)
}

/// Rendering one more line leaves the lines before it as they were; the new
/// line is judged in the state that those lines have left.
pub proof fn lemma_render_push(path: Seq<Segment>, lines: Seq<Seq<u8>>, line: Seq<u8>)
    ensures
        render(path, lines.push(line)) == render(path, lines).push(
            Rendered { text: line, highlighted: line_highlighted(path, scan(path, lines), line) },
        ),
{
    let more = lines.push(line);
    let left = render(path, more);
    let right = render(path, lines).push(
        Rendered { text: line, highlighted: line_highlighted(path, scan(path, lines), line) },
    );
    assert forall|k: int| 0 <= k < left.len() implies left[k] == right[k] by {
        if k < lines.len() {
            assert(more.take(k) =~= lines.take(k));
        } else {
            assert(more.take(k) =~= lines);
        }
    }
    assert(left =~= right);
}

} // verus!
