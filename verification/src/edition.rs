//! The edition pane: the selected element of the document, one entry per
//! line, each entry under a heading that names where it stands.

use vstd::prelude::*;
use vstd::string::StringExecFns;
use crate::app::{up_one, App};
use crate::numbers::{decimal, decimal_text};
use crate::ui::Color;
use crate::value::JsonValue;

verus! {

/// One line of the edition pane.
#[derive(Debug, Clone, PartialEq, Eq)]
pub struct Span {
    pub text: String,
    /// The colour behind the text, if it has one.
    pub background: Option<Color>,
}

/// The mathematical value of a [`Span`].
pub ghost struct SpanView {
    pub text: Seq<char>,
    pub background: Option<Color>,
}

impl View for Span {
    type V = SpanView;

    open spec fn view(&self) -> SpanView {
        SpanView { text: self.text@, background: self.background }
    }
}

/// The values of `spans`, in order.
pub open spec fn span_views(spans: Seq<Span>) -> Seq<SpanView> {
    Seq::new(spans.len(), |k: int| spans[k]@)
}

/// A heading: the place of the entries below it.
pub open spec fn heading(text: Seq<char>) -> SpanView {
    SpanView { text, background: Some(Color::LightBlue) }
}

/// An entry: a value that can be edited. It stands out when the cursor is on
/// it, that is when as many headings stand above it as the cursor says.
pub open spec fn entry(text: Seq<char>, cursor: Option<usize>, headings: usize) -> SpanView {
    SpanView {
        text,
        background: if cursor == Some(headings) {
            Some(Color::LightYellow)
        } else {
            None
        },
    }
}

/// `prefix`, a dot and `name`.
pub open spec fn dotted(prefix: Seq<char>, name: Seq<char>) -> Seq<char> {
    prefix + "."@ + name
}

/// `text` between double quotes.
pub open spec fn quoted(text: Seq<char>) -> Seq<char> {
    "\""@ + text + "\""@
}

/// The lines for `value`, which stands at `prefix`, and the number of
/// headings written when they are done, `headings` of them standing above
/// already.
///
/// A scalar is one entry. An array is its elements in order, each under a
/// heading of the prefix and the element's position, counted from one. An
/// object is its members in order, each under a heading of the prefix and
/// the member's name.
pub open spec fn value_lines(
    value: JsonValue,
    cursor: Option<usize>,
    prefix: Seq<char>,
    headings: usize,
) -> (Seq<SpanView>, usize)
    decreases value, 0nat,
{
    match value {
        JsonValue::Array(items) => items_lines(items, 0, cursor, prefix, headings),
        JsonValue::Object(members) => members_lines(members, 0, cursor, prefix, headings),
        JsonValue::String(text) => (seq![entry(quoted(text@), cursor, headings)], headings),
        JsonValue::Number(text) => (seq![entry(text@, cursor, headings)], headings),
        JsonValue::Bool(b) => (
            seq![entry(
                if b {
                    "true"@
                } else {
                    "false"@
                },
                cursor,
                headings,
            )],
            headings,
        ),
        JsonValue::Null => (seq![entry("null"@, cursor, headings)], headings),
    }
}

/// The lines for the elements of `items` from position `from` on.
pub open spec fn items_lines(
    items: Vec<JsonValue>,
    from: nat,
    cursor: Option<usize>,
    prefix: Seq<char>,
    headings: usize,
) -> (Seq<SpanView>, usize)
    decreases items, items.len() - from,
{
    if from >= items.len() {
        (Seq::empty(), headings)
    } else {
        let place = dotted(prefix, decimal(from + 1));
        let first = value_lines(items[from as int], cursor, place, up_one(headings));
        let rest = items_lines(items, from + 1, cursor, prefix, first.1);
        (seq![heading(place)] + first.0 + rest.0, rest.1)
    }
}

/// The lines for the members of `members` from position `from` on.
pub open spec fn members_lines(
    members: Vec<(String, JsonValue)>,
    from: nat,
    cursor: Option<usize>,
    prefix: Seq<char>,
    headings: usize,
) -> (Seq<SpanView>, usize)
    decreases members, members.len() - from,
{
    if from >= members.len() {
        (Seq::empty(), headings)
    } else {
        let place = dotted(prefix, members[from as int].0@);
        let first = value_lines(members[from as int].1, cursor, place, up_one(headings));
        let rest = members_lines(members, from + 1, cursor, prefix, first.1);
        (seq![heading(place)] + first.0 + rest.0, rest.1)
    }
}

/// What the edition pane shows when no element is selected, or the
/// selected position is not in the document.
pub open spec fn nothing_selected() -> Seq<SpanView> {
    seq![SpanView { text: "No value selected"@, background: None }]
}

/// The element of `value` at position `selected`, if `value` is an array
/// that has one there.
pub open spec fn selected_element(value: JsonValue, selected: Option<usize>) -> Option<JsonValue> {
    match (value, selected) {
        (JsonValue::Array(items), Some(index)) => if index < items.len() {
            Some(items[index as int])
        } else {
            None
        },
        _ => None,
    }
}

/// The lines of the edition pane for the selected element of `value`, and
/// the number of its headings, which is how far the cursor can go. The
/// position of the element, in decimal, is the prefix of its headings.
pub open spec fn edition_lines(value: JsonValue, selected: Option<usize>, cursor: Option<usize>) -> (
    Seq<SpanView>,
    Option<usize>,
) {
    match selected_element(value, selected) {
        Some(element) => {
            let lines = value_lines(element, cursor, decimal(selected->0 as nat), 0);
            (lines.0, Some(lines.1))
        },
        None => (nothing_selected(), None),
    }
}

/// An entry for `text`.
fn entry_span(text: String, input_cursor: Option<usize>, idx: usize) -> (span: Span)
    ensures
        span@ == entry(text@, input_cursor, idx),
{
    let background = match input_cursor {
        Some(cursor) => if cursor == idx {
            Some(Color::LightYellow)
        } else {
            None
        },
        None => None,
    };
    Span { text, background }
}

/// `prefix`, a dot and `name`.
fn dotted_text(prefix: &str, name: &str) -> (text: String)
    ensures
        text@ == dotted(prefix@, name@),
{
    let mut text = prefix.to_owned();
    text.append(".");
    text.append(name);
    text
}

impl App {
    /// Writes the lines for `value`, which stands at `prefix`. `idx` counts
    /// the headings: those above on entry, all of them on return.
    pub fn render_json_struct(
        value: &JsonValue,
        input_cursor: Option<usize>,
        prefix: &str,
        idx: &mut usize,
    ) -> (lines: Vec<Span>)
        ensures
            (span_views(lines@), *final(idx)) == value_lines(
                *value,
                input_cursor,
                prefix@,
                *old(idx),
            ),
        decreases value,
    {
        match value {
            JsonValue::Array(items) => {
                let mut lines: Vec<Span> = Vec::new();
                let ghost all = items_lines(*items, 0, input_cursor, prefix@, *old(idx));
                let mut i: usize = 0;
                assert(span_views(lines@) + all.0 =~= all.0);
                while i < items.len()
                    invariant
                        i <= items.len(),
                        *value == JsonValue::Array(*items),
                        all.0 == span_views(lines@) + items_lines(
                            *items,
                            i as nat,
                            input_cursor,
                            prefix@,
                            *idx,
                        ).0,
                        all.1 == items_lines(*items, i as nat, input_cursor, prefix@, *idx).1,
                    decreases items.len() - i,
                {
                    let ghost before = span_views(lines@);
                    let ghost headings = *idx;
                    let place = dotted_text(prefix, decimal_text(i + 1).as_str());
                    lines.push(Span { text: place.clone(), background: Some(Color::LightBlue) });
                    if *idx < usize::MAX {
                        *idx = *idx + 1;
                    }
                    assert(decreases_to!(*value => value->Array_0));
                    assert(decreases_to!(*items => items[i as int]));
                    let mut inner = App::render_json_struct(&items[i], input_cursor, place.as_str(), idx);
                    let ghost first = span_views(inner@);
                    lines.append(&mut inner);
                    proof {
                        let rest = items_lines(*items, (i + 1) as nat, input_cursor, prefix@, *idx);
                        assert(span_views(lines@) =~= before + seq![heading(place@)] + first);
                        assert(before + (seq![heading(place@)] + first + rest.0) =~= before
                            + seq![heading(place@)] + first + rest.0);
                    }
                    i += 1;
                }
                assert(span_views(lines@) + Seq::<SpanView>::empty() =~= span_views(lines@));
                lines
            },
            JsonValue::Object(members) => {
                let mut lines: Vec<Span> = Vec::new();
                let ghost all = members_lines(*members, 0, input_cursor, prefix@, *old(idx));
                let mut i: usize = 0;
                assert(span_views(lines@) + all.0 =~= all.0);
                while i < members.len()
                    invariant
                        i <= members.len(),
                        *value == JsonValue::Object(*members),
                        all.0 == span_views(lines@) + members_lines(
                            *members,
                            i as nat,
                            input_cursor,
                            prefix@,
                            *idx,
                        ).0,
                        all.1 == members_lines(*members, i as nat, input_cursor, prefix@, *idx).1,
                    decreases members.len() - i,
                {
                    let ghost before = span_views(lines@);
                    let place = dotted_text(prefix, members[i].0.as_str());
                    let member = &members[i].1;
                    lines.push(Span { text: place.clone(), background: Some(Color::LightBlue) });
                    if *idx < usize::MAX {
                        *idx = *idx + 1;
                    }
                    assert(decreases_to!(*value => value->Object_0));
                    assert(decreases_to!(*members => members[i as int]));
                    assert(decreases_to!(members[i as int] => members[i as int].1));
                    let mut inner = App::render_json_struct(member, input_cursor, place.as_str(), idx);
                    let ghost first = span_views(inner@);
                    lines.append(&mut inner);
                    proof {
                        let rest = members_lines(*members, (i + 1) as nat, input_cursor, prefix@, *idx);
                        assert(span_views(lines@) =~= before + seq![heading(place@)] + first);
                        assert(before + (seq![heading(place@)] + first + rest.0) =~= before
                            + seq![heading(place@)] + first + rest.0);
                    }
                    i += 1;
                }
                assert(span_views(lines@) + Seq::<SpanView>::empty() =~= span_views(lines@));
                lines
            },
            JsonValue::String(text) => {
                let mut shown = "\"".to_owned();
                shown.append(text.as_str());
                shown.append("\"");
                let lines = vec![entry_span(shown, input_cursor, *idx)];
                assert(span_views(lines@) =~= seq![entry(quoted(text@), input_cursor, *idx)]);
                lines
            },
            JsonValue::Number(text) => {
                let lines = vec![entry_span(text.clone(), input_cursor, *idx)];
                assert(span_views(lines@) =~= seq![entry(text@, input_cursor, *idx)]);
                lines
            },
            JsonValue::Bool(b) => {
                let shown = if *b {
                    "true".to_owned()
                } else {
                    "false".to_owned()
                };
                let lines = vec![entry_span(shown, input_cursor, *idx)];
                assert(span_views(lines@) =~= seq![entry(shown@, input_cursor, *idx)]);
                lines
            },
            JsonValue::Null => {
                let lines = vec![entry_span("null".to_owned(), input_cursor, *idx)];
                assert(span_views(lines@) =~= seq![entry("null"@, input_cursor, *idx)]);
                lines
            },
        }
    }

    /// The lines of the edition pane: the selected element of the document,
    /// entry by entry. Where an element is shown, the number of its headings
    /// is kept as the limit of the cursor.
    pub fn render_edition(&mut self) -> (lines: Vec<Span>)
        ensures
            span_views(lines@) == edition_lines(
                old(self).json_container.inner,
                old(self).index_edition,
                old(self).json_container.input_cursor,
            ).0,
            final(self).json_container.max_cursor == match edition_lines(
                old(self).json_container.inner,
                old(self).index_edition,
                old(self).json_container.input_cursor,
            ).1 {
                Some(headings) => Some(headings),
                None => old(self).json_container.max_cursor,
            },
            final(self).json_container.inner == old(self).json_container.inner,
            final(self).json_container.lines == old(self).json_container.lines,
            final(self).json_container.save_current_pos == old(self).json_container.save_current_pos,
            final(self).json_container.input_buffer == old(self).json_container.input_buffer,
            final(self).json_container.input_cursor == old(self).json_container.input_cursor,
            final(self).input_file == old(self).input_file,
            final(self).index_edition == old(self).index_edition,
            final(self).current_screen == old(self).current_screen,
            final(self).currently_editing == old(self).currently_editing,
    {
        match self.index_edition {
            Some(selected) => match &self.json_container.inner {
                JsonValue::Array(items) => {
                    if selected < items.len() {
                        let mut idx: usize = 0;
                        let lines = App::render_json_struct(
                            &items[selected],
                            self.json_container.input_cursor,
                            decimal_text(selected).as_str(),
                            &mut idx,
                        );
                        self.json_container.max_cursor = Some(idx);
                        return lines;
                    }
                },
                _ => {},
            },
            None => {},
        }
        let lines = vec![Span { text: "No value selected".to_owned(), background: None }];
        assert(span_views(lines@) =~= nothing_selected());
        lines
    }
}

} // verus!
