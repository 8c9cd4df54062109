//! The state of the editor and how a key changes it.

use vstd::prelude::*;
use crate::json::JsonContainer;
use crate::path::{NavigationPath, PathSegment, Segment};
use crate::render::Rendered;
use crate::value::{compact_text, parsed_text, JsonError, JsonValue};

verus! {

/// The screen that the user is looking at.
#[derive(Debug, Clone, Copy, PartialEq, Eq, Default)]
pub enum CurrentScreen {
    #[default]
    Main,
    Editing,
    Exiting,
}

/// Which half of a member the user is editing.
#[derive(Debug, Clone, Copy, PartialEq, Eq)]
pub enum CurrentlyEditing {
    Key,
    Value,
}

/// Where the document came from and where it goes when the editor closes.
#[derive(Debug, Clone, PartialEq, Eq, Default)]
pub enum InputFile {
    /// An existing file, which is written back.
    Edition(String),
    /// A file that does not exist yet, which is created.
    Creation(String),
    /// No file: the document is printed.
    #[default]
    NoFile,
}

/// A key of the keyboard, as far as the editor tells keys apart.
#[derive(Debug, Clone, Copy, PartialEq, Eq)]
pub enum KeyCode {
    Left,
    Right,
    Up,
    Down,
    Tab,
    Enter,
    Backspace,
    Esc,
    Char(char),
    Other,
}

/// What happened to the key.
#[derive(Debug, Clone, Copy, PartialEq, Eq)]
pub enum KeyEventKind {
    Press,
    Repeat,
    Release,
}

/// An event of the terminal.
#[derive(Debug, Clone, Copy, PartialEq, Eq)]
pub enum Event {
    Key { code: KeyCode, kind: KeyEventKind },
    /// Anything that is not a key.
    Other,
}

/// What the editor does with the document when it closes.
#[derive(Debug, Clone, PartialEq, Eq)]
pub enum Output {
    /// Write `text` to the file at `path`, after creating the file if
    /// `create` is set.
    File { path: String, create: bool, text: String },
    /// Print `text`.
    Print { text: String },
}

/// The mathematical value of an [`Output`].
pub ghost enum OutputView {
    File { path: Seq<char>, create: bool, text: Seq<char> },
    Print { text: Seq<char> },
}

impl View for Output {
    type V = OutputView;

    open spec fn view(&self) -> OutputView {
        match self {
            Output::File { path, create, text } => OutputView::File {
                path: path@,
                create: *create,
                text: text@,
            },
            Output::Print { text } => OutputView::Print { text: text@ },
        }
    }
}

/// What is done with `text`, the text of a document of `input_file`.
pub open spec fn output_view(input_file: InputFile, text: Seq<char>) -> OutputView {
    match input_file {
        InputFile::Creation(path) => OutputView::File { path: path@, create: true, text },
        InputFile::Edition(path) => OutputView::File { path: path@, create: false, text },
        InputFile::NoFile => OutputView::Print { text },
    }
}

/// The editor.
pub struct App {
    pub input_file: InputFile,
    pub json_container: JsonContainer,
    /// The element of the document that is selected.
    pub index_edition: Option<usize>,
    pub current_screen: CurrentScreen,
    /// `None` while the user is not editing.
    pub currently_editing: Option<CurrentlyEditing>,
}

/// What a key can change.
pub ghost struct EditorState {
    pub screen: CurrentScreen,
    pub editing: Option<CurrentlyEditing>,
    /// The selected element of the document.
    pub selected: Option<usize>,
    /// The entry of the edited element that the cursor stands on.
    pub cursor: Option<usize>,
    /// The number of entries of the edited element.
    pub max_cursor: Option<usize>,
    /// The text typed so far.
    pub buffer: Seq<char>,
}

/// `n + 1`, or `n` where there is no larger number.
pub open spec fn up_one(n: usize) -> usize {
    if n < usize::MAX {
        (n + 1) as usize
    } else {
        n
    }
}

/// `n - 1`, or zero for zero.
pub open spec fn down_one(n: usize) -> usize {
    if n > 0 {
        (n - 1) as usize
    } else {
        n
    }
}

/// The selection after a step towards the start of the document: the first
/// element if nothing was selected, else the element before, if there is one.
pub open spec fn selection_before(selected: Option<usize>) -> Option<usize> {
    match selected {
        None => Some(0usize),
        Some(i) => Some(down_one(i)),
    }
}

/// The selection after a step towards the end of a document of `len`
/// elements; `len` is `None` for a document that is no array, in which
/// nothing can be selected this way. The selection stays on the last element
/// and enters at the first.
pub open spec fn selection_after(selected: Option<usize>, len: Option<usize>) -> Option<usize> {
    match len {
        None => selected,
        Some(n) => match selected {
            None => Some(0usize),
            Some(i) => if i + 1 == n || n == 0 {
                Some(i)
            } else {
                Some(up_one(i))
            },
        },
    }
}

/// The cursor after a step up: entries are counted from one, and the cursor
/// stays on the first.
pub open spec fn cursor_before(cursor: Option<usize>) -> Option<usize> {
    match cursor {
        None => Some(1usize),
        Some(c) => if c == 1 {
            Some(c)
        } else {
            Some(down_one(c))
        },
    }
}

/// The cursor after a step down among `max` entries; it stays on the last
/// and does not move while the number of entries is unknown.
pub open spec fn cursor_after(cursor: Option<usize>, max: Option<usize>) -> Option<usize> {
    match max {
        None => cursor,
        Some(m) => match cursor {
            None => Some(1usize),
            Some(c) => if c == m {
                Some(c)
            } else {
                Some(up_one(c))
            },
        },
    }
}

/// The state after `code` on the main screen, the document being an array of
/// `len` elements or, for `None`, no array.
pub open spec fn main_key(state: EditorState, len: Option<usize>, code: KeyCode) -> EditorState {
    match code {
        KeyCode::Right | KeyCode::Tab => EditorState {
            screen: CurrentScreen::Editing,
            editing: Some(CurrentlyEditing::Key),
            ..state
        },
        KeyCode::Up => EditorState { selected: selection_before(state.selected), ..state },
        KeyCode::Down => EditorState { selected: selection_after(state.selected, len), ..state },
        KeyCode::Char(c) => if c == 'q' {
            EditorState { screen: CurrentScreen::Exiting, ..state }
        } else {
            state
        },
        _ => state,
    }
}

/// The answer that `code` gives on the exit screen: whether to write the
/// document out, or `None` for a key that does not answer.
pub open spec fn exit_answer(code: KeyCode) -> Option<bool> {
    match code {
        KeyCode::Char(c) => if c == 'y' {
            Some(true)
        } else if c == 'n' || c == 'q' {
            Some(false)
        } else {
            None
        },
        _ => None,
    }
}

/// The state after `code` was pressed on the editing screen.
pub open spec fn editing_key(state: EditorState, code: KeyCode) -> EditorState {
    match code {
        KeyCode::Up => EditorState { cursor: cursor_before(state.cursor), ..state },
        KeyCode::Down => EditorState { cursor: cursor_after(state.cursor, state.max_cursor), ..state },
        KeyCode::Left => EditorState {
            screen: CurrentScreen::Main,
            editing: None,
            cursor: None,
            max_cursor: None,
            ..state
        },
        KeyCode::Tab | KeyCode::Esc => EditorState {
            screen: CurrentScreen::Main,
            editing: None,
            ..state
        },
        KeyCode::Enter => match state.editing {
            Some(CurrentlyEditing::Key) => EditorState {
                editing: Some(CurrentlyEditing::Value),
                ..state
            },
            Some(CurrentlyEditing::Value) => EditorState { screen: CurrentScreen::Main, ..state },
            None => state,
        },
        KeyCode::Backspace => if state.editing is Some && state.buffer.len() > 0 {
            EditorState { buffer: state.buffer.drop_last(), ..state }
        } else {
            state
        },
        KeyCode::Char(c) => if state.editing is Some {
            EditorState { buffer: state.buffer.push(c), ..state }
        } else {
            state
        },
        KeyCode::Right | KeyCode::Other => state,
    }
}

/// The state after `event`, and what the event decides: `Some(true)` to close
/// the editor and write the document out, `Some(false)` to close it without,
/// `None` to go on.
///
/// Only keys count, and a released key does not. The exit screen takes any
/// other key; the editing screen only a pressed one.
pub open spec fn step(state: EditorState, len: Option<usize>, event: Event) -> (
    EditorState,
    Option<bool>,
) {
    match event {
        Event::Other => (state, None),
        Event::Key { code, kind } => if kind is Release {
            (state, None)
        } else {
            match state.screen {
                CurrentScreen::Main => (main_key(state, len, code), None),
                CurrentScreen::Exiting => (state, exit_answer(code)),
                CurrentScreen::Editing => if kind is Press {
                    (editing_key(state, code), None)
                } else {
                    (state, None)
                },
            }
        },
    }
}

/// The path that selects element `selected` of the document, or nothing.
pub open spec fn selection_path(selected: Option<usize>) -> Seq<Segment> {
    match selected {
        Some(i) => seq![Segment::Index(i as nat)],
        None => Seq::empty(),
    }
}

impl App {
    /// What a key can change.
    pub open spec fn state(&self) -> EditorState {
        EditorState {
            screen: self.current_screen,
            editing: self.currently_editing,
            selected: self.index_edition,
            cursor: self.json_container.input_cursor,
            max_cursor: self.json_container.max_cursor,
            buffer: self.json_container.input_buffer@,
        }
    }

    /// The rendered lines answer for the document.
    pub open spec fn wf(&self) -> bool {
        self.json_container.wf()
    }

    /// The number of elements of the document, if it is an array.
    pub open spec fn document_len(&self) -> Option<usize> {
        match self.json_container.inner {
            JsonValue::Array(items) => Some(items@.len() as usize),
            _ => None,
        }
    }

    /// The state of an editor that was just opened: the main screen, nothing
    /// selected, nothing typed.
    pub open spec fn opening_state() -> EditorState {
        EditorState {
            screen: CurrentScreen::Main,
            editing: None,
            selected: None,
            cursor: None,
            max_cursor: None,
            buffer: Seq::empty(),
        }
    }

    /// Opens the editor.
    ///
    /// `input_file` is the name of the file to edit, if there is one, and
    /// `contents` what reading it gave, if it could be read. A file that was
    /// read is edited, and its contents have to be a JSON document. A file
    /// that could not be read is created, from an empty document; so is the
    /// document that has no file.
    pub fn new(input_file: Option<String>, contents: Option<String>) -> (result: Result<
        App,
        JsonError,
    >)
        ensures
            match result {
                Ok(app) => {
                    &&& app.wf()
                    &&& app.state() == App::opening_state()
                    &&& app.json_container@.path is None
                    &&& app.json_container@.lines == Seq::<Rendered>::empty()
                    &&& match (input_file, contents) {
                        (Some(name), Some(text)) => app.input_file == InputFile::Edition(name)
                            && parsed_text(text@) == Some(app.json_container.inner),
                        (Some(name), None) => app.input_file == InputFile::Creation(name)
                            && app.json_container.inner == JsonValue::Null,
                        (None, _) => app.input_file == InputFile::NoFile
                            && app.json_container.inner == JsonValue::Null,
                    }
                },
                Err(error) => {
                    &&& error == JsonError::Malformed
                    &&& input_file is Some
                    &&& contents matches Some(text)
                    &&& parsed_text(text@) is None
                },
            },
    {
        let document = match (&input_file, contents) {
            (Some(_), Some(text)) => match JsonValue::parse(text.as_str()) {
                Ok(json) => Some(json),
                Err(error) => {
                    return Err(error);
                },
            },
            _ => None,
        };
        Ok(App::with_document(input_file, document))
    }

    /// Opens the editor on `document`, which was read from the file named
    /// `input_file`. Without a document the editor starts from an empty one,
    /// to create the file; without a file it starts from an empty one
    /// whatever the document.
    pub fn with_document(input_file: Option<String>, document: Option<JsonValue>) -> (app: App)
        ensures
            app.wf(),
            app.state() == App::opening_state(),
            app.json_container@.path is None,
            app.json_container@.lines == Seq::<Rendered>::empty(),
            match (input_file, document) {
                (Some(name), Some(json)) => app.input_file == InputFile::Edition(name)
                    && app.json_container.inner == json,
                (Some(name), None) => app.input_file == InputFile::Creation(name)
                    && app.json_container.inner == JsonValue::Null,
                (None, _) => app.input_file == InputFile::NoFile && app.json_container.inner
                    == JsonValue::Null,
            },
    {
        let (input_file, json) = match input_file {
            Some(name) => match document {
                Some(json) => (InputFile::Edition(name), json),
                None => (InputFile::Creation(name), JsonValue::Null),
            },
            None => (InputFile::NoFile, JsonValue::Null),
        };
        App {
            input_file,
            json_container: JsonContainer::new(json),
            index_edition: None,
            current_screen: CurrentScreen::Main,
            currently_editing: None,
        }
    }

    /// Forgets where the cursor stood in the edited element.
    fn reset_cursor(&mut self)
        ensures
            final(self).json_container.input_cursor is None,
            final(self).json_container.max_cursor is None,
            final(self).json_container.inner == old(self).json_container.inner,
            final(self).json_container.lines == old(self).json_container.lines,
            final(self).json_container.save_current_pos == old(self).json_container.save_current_pos,
            final(self).json_container.input_buffer == old(self).json_container.input_buffer,
            final(self).input_file == old(self).input_file,
            final(self).index_edition == old(self).index_edition,
            final(self).current_screen == old(self).current_screen,
            final(self).currently_editing == old(self).currently_editing,
    {
        self.json_container.input_cursor = None;
        self.json_container.max_cursor = None;
    }

    /// Takes one event of the terminal. Returns `Some` when the editor is to
    /// close: `true` to write the document out, `false` not to.
    pub fn handle_event(&mut self, event: &Event) -> (answer: Option<bool>)
        ensures
            (final(self).state(), answer) == step(old(self).state(), old(self).document_len(), *event),
            final(self).input_file == old(self).input_file,
            final(self).json_container.inner == old(self).json_container.inner,
            final(self).json_container.lines == old(self).json_container.lines,
            final(self).json_container.save_current_pos == old(self).json_container.save_current_pos,
    {
        let (code, kind) = match *event {
            Event::Key { code, kind } => (code, kind),
            Event::Other => {
                return None;
            },
        };
        if let KeyEventKind::Release = kind {
            return None;
        }
        match self.current_screen {
            CurrentScreen::Main => match code {
                KeyCode::Right | KeyCode::Tab => {
                    self.current_screen = CurrentScreen::Editing;
                    self.currently_editing = Some(CurrentlyEditing::Key);
                },
                KeyCode::Up => match self.index_edition {
                    Some(val) => {
                        self.index_edition = Some(val.saturating_sub(1));
                    },
                    None => {
                        self.index_edition = Some(0);
                    },
                },
                KeyCode::Down => match self.json_container.len() {
                    Some(len) => match self.index_edition {
                        Some(val) => {
                            if len != 0 && val != len - 1 {
                                self.index_edition = Some(val.saturating_add(1));
                            }
                        },
                        None => {
                            self.index_edition = Some(0);
                        },
                    },
                    None => {},
                },
                KeyCode::Char(c) => {
                    if c == 'q' {
                        self.current_screen = CurrentScreen::Exiting;
                    }
                },
                _ => {},
            },
            CurrentScreen::Exiting => match code {
                KeyCode::Char(c) => {
                    if c == 'y' {
                        return Some(true);
                    }
                    if c == 'n' || c == 'q' {
                        return Some(false);
                    }
                },
                _ => {},
            },
            CurrentScreen::Editing => {
                if let KeyEventKind::Press = kind {
                    self.editing_key(code);
                }
            },
        }
        None
    }

    /// Takes a key that was pressed on the editing screen.
    fn editing_key(&mut self, code: KeyCode)
        ensures
            final(self).state() == editing_key(old(self).state(), code),
            final(self).input_file == old(self).input_file,
            final(self).json_container.inner == old(self).json_container.inner,
            final(self).json_container.lines == old(self).json_container.lines,
            final(self).json_container.save_current_pos == old(self).json_container.save_current_pos,
    {
        match code {
            KeyCode::Up => match self.json_container.input_cursor {
                Some(current) => {
                    if current != 1 {
                        self.json_container.input_cursor = Some(current.saturating_sub(1));
                    }
                },
                None => {
                    self.json_container.input_cursor = Some(1);
                },
            },
            KeyCode::Down => match self.json_container.max_cursor {
                Some(max) => match self.json_container.input_cursor {
                    Some(current) => {
                        if current != max {
                            self.json_container.input_cursor = Some(current.saturating_add(1));
                        }
                    },
                    None => {
                        self.json_container.input_cursor = Some(1);
                    },
                },
                None => {},
            },
            KeyCode::Left => {
                self.current_screen = CurrentScreen::Main;
                self.currently_editing = None;
                self.reset_cursor();
            },
            KeyCode::Tab | KeyCode::Esc => {
                self.current_screen = CurrentScreen::Main;
                self.currently_editing = None;
            },
            KeyCode::Enter => match self.currently_editing {
                Some(CurrentlyEditing::Key) => {
                    self.currently_editing = Some(CurrentlyEditing::Value);
                },
                Some(CurrentlyEditing::Value) => {
                    self.current_screen = CurrentScreen::Main;
                },
                None => {},
            },
            KeyCode::Backspace => {
                if self.currently_editing.is_some() {
                    self.json_container.input_buffer.pop();
                }
            },
            KeyCode::Char(value) => {
                if self.currently_editing.is_some() {
                    self.json_container.input_buffer.push(value);
                }
            },
            KeyCode::Right | KeyCode::Other => {},
        }
    }

    /// Renders the document with the selected element highlighted.
    pub fn render_json(&mut self) -> (result: Result<(), JsonError>)
        ensures
            old(self).wf() ==> final(self).wf(),
            final(self).json_container@ == old(self).json_container@.request(
                selection_path(old(self).index_edition),
            ),
            final(self).state() == old(self).state(),
            final(self).input_file == old(self).input_file,
            result is Ok == old(self).json_container@.answers(
                selection_path(old(self).index_edition),
            ),
            result matches Err(error) ==> error == JsonError::NotSerializable,
    {
        let mut path = NavigationPath::new();
        match self.index_edition {
            Some(index) => {
                path.push(PathSegment::Index(index));
            },
            None => {},
        }
        assert(path@ =~= selection_path(self.index_edition));
        self.json_container.create_lines(&path)
    }

    /// What to do with the document when the editor closes with the answer
    /// to write it out: the compact text of the document, and where it goes.
    pub fn write_output(&self) -> (result: Result<Output, JsonError>)
        ensures
            match result {
                Ok(output) => compact_text(self.json_container.inner) matches Some(text)
                    && output@ == output_view(self.input_file, text),
                Err(error) => error == JsonError::NotSerializable && compact_text(
                    self.json_container.inner,
                ) is None,
            },
    {
        match self.json_container.inner.to_compact_string() {
            Ok(text) => Ok(output_for(&self.input_file, text)),
            Err(error) => Err(error),
        }
    }
}

/// Where `text` goes for a document of `input_file`: into the file, which is
/// created first if it does not exist yet, or to the screen if there is no
/// file.
pub fn output_for(input_file: &InputFile, text: String) -> (output: Output)
    ensures
        output@ == output_view(*input_file, text@),
{
    match input_file {
        InputFile::Creation(path) => Output::File { path: path.clone(), create: true, text },
        InputFile::Edition(path) => Output::File { path: path.clone(), create: false, text },
        InputFile::NoFile => Output::Print { text },
    }
}

} // verus!
