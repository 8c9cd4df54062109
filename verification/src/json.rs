//! The document as the editor holds it: the value, its rendered lines, and
//! the path that the lines were rendered for.

use vstd::prelude::*;
use vstd::utf8::encode_utf8;
use crate::lines::{join_lines, lemma_join_split, split_lines};
use crate::matcher::{lemma_absent_index, lemma_absent_key, lemma_one_highlight};
use crate::path::{NavigationPath, Segment};
use crate::render::{render_lines, texts, views, Rendered, RenderedLine};
use crate::text::{begins_with_key, NEWLINE};
use crate::value::{pretty_text, JsonError, JsonValue};
use crate::writer::MyWriter;

verus! {

/// The lines that stand for `value` with the node at `path` highlighted: the
/// indented text of the value and one line terminator after it, cut into
/// lines. `None` where the value has no text.
pub open spec fn rendered(value: JsonValue, path: Seq<Segment>) -> Option<Seq<Rendered>> {
    match pretty_text(value) {
        Some(text) => Some(render_lines(text.push(NEWLINE), path)),
        None => None,
    }
}

/// A document with a one-entry cache of its rendering.
pub struct JsonContainer {
    /// The document.
    pub inner: JsonValue,
    /// The lines as they were rendered last.
    pub lines: Vec<RenderedLine>,
    /// The path that `lines` were rendered for, if they answer for `inner`.
    pub save_current_pos: Option<NavigationPath>,
    /// The text being typed into the selected node.
    pub input_buffer: String,
    /// The entry of the edited element that the cursor stands on, counted
    /// from one.
    pub input_cursor: Option<usize>,
    /// The number of entries that the edited element was last shown with.
    pub max_cursor: Option<usize>,
}

/// The mathematical value of a [`JsonContainer`], as far as rendering goes.
pub ghost struct RenderCache {
    /// The document.
    pub value: JsonValue,
    /// The path that `lines` were rendered for, if they were rendered.
    pub path: Option<Seq<Segment>>,
    /// The lines as they were rendered last.
    pub lines: Seq<Rendered>,
}

impl RenderCache {
    /// The cache answers for its document: what it holds for a path is the
    /// rendering of the document for that path.
    pub open spec fn wf(self) -> bool {
        self.path matches Some(path) ==> rendered(self.value, path) == Some(self.lines)
    }

    /// The cache after a request for `path`. A request for the path that the
    /// lines were rendered for changes nothing; any other replaces path and
    /// lines by a fresh rendering. A document that has no text leaves the
    /// cache as it was.
    pub open spec fn request(self, path: Seq<Segment>) -> RenderCache {
        if self.path == Some(path) {
            self
        } else {
            match rendered(self.value, path) {
                Some(lines) => RenderCache { value: self.value, path: Some(path), lines },
                None => self,
            }
        }
    }

    /// Whether a request for `path` is answered: from the cache, or by a
    /// rendering of the document.
    pub open spec fn answers(self, path: Seq<Segment>) -> bool {
        self.path == Some(path) || rendered(self.value, path) is Some
    }
}

/// A request is answered with the rendering of the document for the path
/// asked for, whatever the cache held before; asking again changes nothing.
/// So two requests for one path, with the document unchanged, give the same
/// lines.
pub proof fn lemma_request_repeatable(cache: RenderCache, path: Seq<Segment>)
    requires
        cache.wf(),
    ensures
        cache.request(path).wf(),
        cache.request(path).value == cache.value,
        cache.answers(path) ==> cache.request(path).path == Some(path) && rendered(cache.value, path)
            == Some(cache.request(path).lines),
        !cache.answers(path) ==> cache.request(path) == cache,
        cache.request(path).request(path) == cache.request(path),
{
}

/// A request for another path does not see what the cache held: its lines
/// are those that a cache with nothing in it gives for that path.
pub proof fn lemma_request_other_path(cache: RenderCache, first: Seq<Segment>, second: Seq<Segment>)
    requires
        cache.wf(),
        first != second,
        pretty_text(cache.value) is Some,
    ensures
        cache.request(first).path == Some(first),
        cache.request(first).request(second).path == Some(second),
        cache.request(first).request(second).lines == (RenderCache {
            value: cache.value,
            path: None,
            lines: Seq::empty(),
        }).request(second).lines,
        rendered(cache.value, second) == Some(cache.request(first).request(second).lines),
{
}

/// The rendered lines, one after the other, are the indented text of the
/// document and one line terminator, whatever the path.
pub proof fn lemma_rendered_text(value: JsonValue, path: Seq<Segment>)
    requires
        pretty_text(value) is Some,
    ensures
        rendered(value, path) is Some,
        join_lines(texts(rendered(value, path)->0)) == pretty_text(value)->0.push(NEWLINE),
{
    let text = pretty_text(value)->0.push(NEWLINE);
    lemma_join_split(text);
    assert(texts(render_lines(text, path)) =~= split_lines(text));
}

/// A path whose first segment is a key that no line of the rendering begins
/// with highlights nothing.
pub proof fn lemma_absent_key_highlights_nothing(
    value: JsonValue,
    path: Seq<Segment>,
    name: Seq<char>,
    k: int,
)
    requires
        path.len() > 0,
        path[0] == Segment::Key(name),
        rendered(value, path) matches Some(lines) && 0 <= k < lines.len() && forall|j: int|
            0 <= j < lines.len() ==> !begins_with_key(#[trigger] lines[j].text, encode_utf8(name)),
    ensures
        !rendered(value, path)->0[k].highlighted,
{
    let text = pretty_text(value)->0.push(NEWLINE);
    let lines = rendered(value, path)->0;
    assert forall|j: int| 0 <= j < split_lines(text).len() implies !begins_with_key(
        #[trigger] split_lines(text)[j],
        encode_utf8(name),
    ) by {
        assert(lines[j].text == split_lines(text)[j]);
    }
    lemma_absent_key(path, split_lines(text), name);
}

/// A path whose first segment is an index that is not less than the number
/// of lines of the rendering highlights nothing.
pub proof fn lemma_absent_index_highlights_nothing(
    value: JsonValue,
    path: Seq<Segment>,
    position: nat,
    k: int,
)
    requires
        path.len() > 0,
        path[0] == Segment::Index(position),
        rendered(value, path) matches Some(lines) && 0 <= k < lines.len() <= position,
    ensures
        !rendered(value, path)->0[k].highlighted,
{
    let text = pretty_text(value)->0.push(NEWLINE);
    lemma_absent_index(path, split_lines(text), position);
}

/// No two lines of a rendering are highlighted.
pub proof fn lemma_rendered_one_highlight(value: JsonValue, path: Seq<Segment>, j: int, k: int)
    requires
        rendered(value, path) matches Some(lines) && 0 <= j < k < lines.len(),
    ensures
        !(rendered(value, path)->0[j].highlighted && rendered(value, path)->0[k].highlighted),
{
    let text = pretty_text(value)->0.push(NEWLINE);
    if rendered(value, path)->0[j].highlighted {
        lemma_one_highlight(path, split_lines(text), j, k);
    }
}

/// With an empty path no line of the rendering is highlighted.
pub proof fn lemma_no_path_no_highlight(value: JsonValue, k: int)
    requires
        rendered(value, Seq::empty()) matches Some(lines) && 0 <= k < lines.len(),
    ensures
        !rendered(value, Seq::empty())->0[k].highlighted,
{
}

impl View for JsonContainer {
    type V = RenderCache;

    open spec fn view(&self) -> RenderCache {
        RenderCache {
            value: self.inner,
            path: match self.save_current_pos {
                Some(path) => Some(path@),
                None => None,
            },
            lines: views(self.lines@),
        }
    }
}

impl JsonContainer {
    /// The cache answers for the document.
    pub open spec fn wf(&self) -> bool {
        self@.wf()
    }

    /// A container for `json`, with nothing rendered yet.
    pub fn new(json: JsonValue) -> (container: JsonContainer)
        ensures
            container.wf(),
            container@.value == json,
            container@.path is None,
            container@.lines == Seq::<Rendered>::empty(),
            container.input_buffer@ == Seq::<char>::empty(),
            container.input_cursor is None,
            container.max_cursor is None,
    {
        let container = JsonContainer {
            inner: json,
            lines: Vec::new(),
            save_current_pos: None,
            input_buffer: String::new(),
            input_cursor: None,
            max_cursor: None,
        };
        assert(container@.lines =~= Seq::<Rendered>::empty());
        container
    }

    /// Replaces the document. The rendered lines no longer answer for it, so
    /// the next request renders anew, whatever its path.
    pub fn set_value(&mut self, json: JsonValue)
        ensures
            final(self).wf(),
            final(self)@.value == json,
            final(self)@.path is None,
            final(self)@.lines == old(self)@.lines,
            final(self).input_buffer == old(self).input_buffer,
            final(self).input_cursor == old(self).input_cursor,
            final(self).max_cursor == old(self).max_cursor,
    {
        self.inner = json;
        self.save_current_pos = None;
    }

    /// Gives up the rendered lines as an answer for the document, as after a
    /// change made to the document in place: the next request renders anew,
    /// whatever its path.
    pub fn invalidate(&mut self)
        ensures
            final(self).wf(),
            final(self)@.value == old(self)@.value,
            final(self)@.path is None,
            final(self)@.lines == old(self)@.lines,
            final(self).input_buffer == old(self).input_buffer,
            final(self).input_cursor == old(self).input_cursor,
            final(self).max_cursor == old(self).max_cursor,
    {
        self.save_current_pos = None;
    }

    /// The number of elements of the document, if it is an array.
    pub fn len(&self) -> (len: Option<usize>)
        ensures
            len == match self@.value {
                JsonValue::Array(items) => Some(items@.len() as usize),
                _ => None,
            },
    {
        self.inner.array_len()
    }

    /// Whether the lines were rendered for `current_pos`.
    pub fn check_same_current_pos(&self, current_pos: &NavigationPath) -> (same: bool)
        ensures
            same == (self@.path == Some(current_pos@)),
    {
        match &self.save_current_pos {
            Some(path) => path.same_as(current_pos),
            None => false,
        }
    }

    /// Renders the document for `current_pos`, unless the lines at hand were
    /// rendered for that very path.
    ///
    /// Fails, and changes nothing, where the lines have to be rendered and the
    /// document has no text.
    pub fn create_lines(&mut self, current_pos: &NavigationPath) -> (result: Result<(), JsonError>)
        ensures
            final(self)@ == old(self)@.request(current_pos@),
            old(self).wf() ==> final(self).wf(),
            final(self).input_buffer == old(self).input_buffer,
            final(self).input_cursor == old(self).input_cursor,
            final(self).max_cursor == old(self).max_cursor,
            match result {
                Ok(_) => old(self)@.answers(current_pos@) && final(self)@.path == Some(
                    current_pos@,
                ),
                Err(error) => error == JsonError::NotSerializable && !old(self)@.answers(
                    current_pos@,
                ),
            },
    {
        if self.check_same_current_pos(current_pos) {
            return Ok(());
        }
        match render(&self.inner, current_pos) {
            Ok(lines) => {
                self.lines = lines;
                self.save_current_pos = Some(current_pos.duplicate());
                Ok(())
            },
            Err(error) => Err(error),
        }
    }
}

/// Renders `document` with the node at `path` highlighted: the indented text
/// of the document, a line terminator after it, line by line.
///
/// Fails where the document has no text.
pub fn render(document: &JsonValue, path: &NavigationPath) -> (result: Result<
    Vec<RenderedLine>,
    JsonError,
>)
    ensures
        match result {
            Ok(lines) => rendered(*document, path@) == Some(views(lines@)),
            Err(error) => error == JsonError::NotSerializable && rendered(*document, path@) is None,
        },
{
    match document.to_pretty_bytes() {
        Ok(bytes) => Ok(render_text(bytes.as_slice(), path)),
        Err(error) => Err(error),
    }
}

/// Cuts `text`, with a line terminator after it, into lines, and highlights
/// the line that `path` selects.
pub fn render_text(text: &[u8], path: &NavigationPath) -> (lines: Vec<RenderedLine>)
    ensures
        views(lines@) == render_lines(text@.push(NEWLINE), path@),
{
    let mut writer = MyWriter::new(path);
    writer.write(text);
    let terminator: [u8; 1] = [NEWLINE];
    writer.write(terminator.as_slice());
    proof {
        assert(terminator@ =~= seq![NEWLINE]);
        assert(writer.written() =~= text@.push(NEWLINE));
    }
    writer.into_lines()
}

} // verus!
