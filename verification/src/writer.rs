//! The sink that the formatter writes into: it cuts the byte stream into
//! lines as they are completed and decides for each line whether it is
//! highlighted.

use vstd::prelude::*;
use crate::context::NestingContext;
use crate::lines::{complete_lines, lemma_lines_push, open_line};
use crate::matcher::{line_highlighted, matches_segment, scan, scan_step, ScanState};
use crate::path::{NavigationPath, Segment};
use crate::render::{lemma_render_push, render, views, Rendered, RenderedLine};
use crate::text::NEWLINE;

verus! {

/// A line-by-line sink with a path matcher.
pub struct MyWriter {
    inner: Vec<RenderedLine>,
    internal_buf: Vec<u8>,
    path: NavigationPath,
    consumed: usize,
    context: NestingContext,
    written: Ghost<Seq<u8>>,
}

impl MyWriter {
    /// The lines emitted so far.
    pub closed spec fn lines(&self) -> Seq<Rendered> {
        views(self.inner@)
    }

    /// The bytes received after the last complete line.
    pub closed spec fn pending(&self) -> Seq<u8> {
        self.internal_buf@
    }

    /// The path that the lines are matched against.
    pub closed spec fn path(&self) -> Seq<Segment> {
        self.path@
    }

    /// The state of the matcher.
    pub closed spec fn state(&self) -> ScanState {
        ScanState { context: self.context, consumed: self.consumed as nat }
    }

    /// All the bytes received so far.
    pub closed spec fn written(&self) -> Seq<u8> {
        self.written@
    }

    /// The sink is in step with what it has received: it has emitted the
    /// complete lines, each with its highlight, it holds the unterminated
    /// rest, and the matcher has read exactly the emitted lines.
    pub open spec fn wf(&self) -> bool {
        &&& self.lines() == render(self.path(), complete_lines(self.written()))
        &&& self.pending() == open_line(self.written())
        &&& self.state() == scan(self.path(), complete_lines(self.written()))
    }

    /// A sink that has received nothing, with a private copy of `path`.
    pub fn new(path: &NavigationPath) -> (writer: MyWriter)
        ensures
            writer.wf(),
            writer.path() == path@,
            writer.written() == Seq::<u8>::empty(),
    {
        let writer = MyWriter {
            inner: Vec::new(),
            internal_buf: Vec::new(),
            path: path.duplicate(),
            consumed: 0,
            context: NestingContext::new(),
            written: Ghost(Seq::empty()),
        };
        assert(writer.lines() =~= render(writer.path(), complete_lines(writer.written())));
        writer
    }

    /// Decides whether `line` is highlighted and moves the matcher past it.
    ///
    /// The line is highlighted when it matches the head of what is left of
    /// the path and that head is the last segment. A match consumes the head,
    /// highlighted or not.
    pub fn should_color(&mut self, line: &[u8]) -> (highlighted: bool)
        ensures
            highlighted == line_highlighted(old(self).path(), old(self).state(), line@),
            final(self).state() == scan_step(old(self).path(), old(self).state(), line@),
            final(self).path() == old(self).path(),
            final(self).lines() == old(self).lines(),
            final(self).pending() == old(self).pending(),
            final(self).written() == old(self).written(),
    {
        let mut highlighted = false;
        if self.consumed < self.path.segments.len() {
            assert(self.path@[self.consumed as int] == self.path.segments@[self.consumed as int]@);
            if matches_segment(&self.context, &self.path.segments[self.consumed], line) {
                self.consumed = self.consumed + 1;
                highlighted = self.consumed == self.path.segments.len();
            }
        }
        self.context.advance(line);
        highlighted
    }

    /// Receives `buf`. Every line that `buf` completes is emitted, with its
    /// highlight; what follows the last line terminator is kept for the next
    /// call. Returns the number of bytes taken, which is all of them.
    pub fn write(&mut self, buf: &[u8]) -> (taken: usize)
        requires
            old(self).wf(),
        ensures
            final(self).wf(),
            final(self).written() == old(self).written() + buf@,
            final(self).path() == old(self).path(),
            taken == buf@.len(),
    {
        let mut i: usize = 0;
        assert(self.written() =~= old(self).written() + buf@.take(0));
        while i < buf.len()
            invariant
                i <= buf@.len(),
                self.wf(),
                self.written() == old(self).written() + buf@.take(i as int),
                self.path() == old(self).path(),
            decreases buf@.len() - i,
        {
            let byte = buf[i];
            let ghost before = self.written@;
            proof {
                lemma_lines_push(before, byte);
                assert(buf@.take(i + 1) =~= buf@.take(i as int).push(byte));
                assert(old(self).written() + buf@.take(i + 1) =~= before.push(byte));
            }
            self.internal_buf.push(byte);
            self.written = Ghost(before.push(byte));
            if byte == NEWLINE {
                let mut line: Vec<u8> = Vec::new();
                std::mem::swap(&mut line, &mut self.internal_buf);
                let highlighted = self.should_color(line.as_slice());
                self.inner.push(RenderedLine { text: line, highlighted });
                proof {
                    let done = complete_lines(before);
                    lemma_render_push(self.path(), done, line@);
                    assert(done.push(line@).drop_last() =~= done);
                    assert(self.lines() =~= render(self.path(), done).push(
                        Rendered { text: line@, highlighted },
                    ));
                }
            }
            i += 1;
        }
        assert(buf@.take(i as int) =~= buf@);
        i
    }

    /// The nesting context that the lines judged so far have left.
    pub fn context(&self) -> (context: NestingContext)
        ensures
            context == self.state().context,
    {
        self.context
    }

    /// The lines emitted so far.
    pub fn emitted(&self) -> (lines: &Vec<RenderedLine>)
        ensures
            views(lines@) == self.lines(),
    {
        &self.inner
    }

    /// Gives up the sink for the lines it has emitted.
    pub fn into_lines(self) -> (lines: Vec<RenderedLine>)
        ensures
            views(lines@) == self.lines(),
    {
        self.inner
    }
}

} // verus!
