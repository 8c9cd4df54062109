//! What the screen shows, as plain values: texts and their styles. Turning
//! them into widgets is left to the terminal front end.

use vstd::prelude::*;
use vstd::string::StringExecFns;
use crate::app::{App, CurrentScreen, CurrentlyEditing, InputFile};
use crate::numbers::{decimal, decimal_text};

verus! {

/// The colours that the editor uses.
#[derive(Debug, Clone, Copy, PartialEq, Eq)]
pub enum Color {
    Green,
    White,
    LightRed,
    DarkGray,
    LightBlue,
    LightYellow,
}

/// How a text is aligned in its box.
#[derive(Debug, Clone, Copy, PartialEq, Eq)]
pub enum Alignment {
    Left,
    Center,
    Right,
}

/// A text with a foreground colour.
#[derive(Debug, Clone, Copy, PartialEq, Eq)]
pub struct Label {
    pub text: &'static str,
    pub color: Color,
}

/// The footer that tells the mode: three labels, first to last, and their
/// alignment.
#[derive(Debug, Clone, Copy, PartialEq, Eq)]
pub struct FooterMode {
    pub labels: [Label; 3],
    pub alignment: Alignment,
}

/// The title for a document of `input_file` with `selected` as the selected
/// element.
pub open spec fn title(input_file: InputFile, selected: Option<usize>) -> Seq<char> {
    let name = match input_file {
        InputFile::Creation(file) => "Creating "@ + file@,
        InputFile::Edition(file) => "Editing "@ + file@,
        InputFile::NoFile => "Creating json"@,
    };
    match selected {
        Some(index) => name + " (index "@ + decimal(index as nat) + ")"@,
        None => name,
    }
}

/// The label that names the screen.
pub open spec fn mode_label(screen: CurrentScreen) -> Label {
    match screen {
        CurrentScreen::Main => Label { text: "View Mode", color: Color::Green },
        CurrentScreen::Editing => Label { text: "Editing Mode", color: Color::Green },
        CurrentScreen::Exiting => Label { text: "Exiting", color: Color::LightRed },
    }
}

/// The label that tells which key changes the mode.
pub open spec fn hint_label(editing: Option<CurrentlyEditing>) -> Label {
    if editing is Some {
        Label { text: "Left Arrow to view mode", color: Color::DarkGray }
    } else {
        Label { text: "Right Arrow to edit mode", color: Color::DarkGray }
    }
}

/// The bar between the two halves of the footer.
pub open spec fn divider_label() -> Label {
    Label { text: " | ", color: Color::White }
}

/// The footer for `screen`: the mode, a divider and the hint, aligned to the
/// left on the main screen; the same in reverse order, aligned to the right,
/// on the editing screen; centred on the exit screen.
pub open spec fn footer_mode(screen: CurrentScreen, editing: Option<CurrentlyEditing>) -> FooterMode {
    match screen {
        CurrentScreen::Main => FooterMode {
            labels: [mode_label(screen), divider_label(), hint_label(editing)],
            alignment: Alignment::Left,
        },
        CurrentScreen::Editing => FooterMode {
            labels: [hint_label(editing), divider_label(), mode_label(screen)],
            alignment: Alignment::Right,
        },
        CurrentScreen::Exiting => FooterMode {
            labels: [mode_label(screen), divider_label(), hint_label(editing)],
            alignment: Alignment::Center,
        },
    }
}

/// What the user is doing, in words.
pub open spec fn key_hint(editing: Option<CurrentlyEditing>) -> &'static str {
    match editing {
        Some(CurrentlyEditing::Key) => "Editing Key",
        Some(CurrentlyEditing::Value) => "Editing Value",
        None => "Viewing",
    }
}

/// The colour of the border of a pane: green for the pane that has the
/// focus, white for the other.
pub open spec fn border_color(focused: bool) -> Color {
    if focused {
        Color::Green
    } else {
        Color::White
    }
}

impl App {
    /// The title: what is being done to which file, and the selected
    /// element.
    pub fn render_title(&self) -> (text: String)
        ensures
            text@ == title(self.input_file, self.index_edition),
    {
        let mut text = match &self.input_file {
            InputFile::Creation(file) => {
                let mut text = "Creating ".to_owned();
                text.append(file.as_str());
                text
            },
            InputFile::Edition(file) => {
                let mut text = "Editing ".to_owned();
                text.append(file.as_str());
                text
            },
            InputFile::NoFile => "Creating json".to_owned(),
        };
        match self.index_edition {
            Some(index) => {
                text.append(" (index ");
                text.append(decimal_text(index).as_str());
                text.append(")");
            },
            None => {},
        }
        text
    }

    /// The footer that tells the mode.
    pub fn render_footer_mode(&self) -> (footer: FooterMode)
        ensures
            footer == footer_mode(self.current_screen, self.currently_editing),
    {
        let mode = match self.current_screen {
            CurrentScreen::Main => Label { text: "View Mode", color: Color::Green },
            CurrentScreen::Editing => Label { text: "Editing Mode", color: Color::Green },
            CurrentScreen::Exiting => Label { text: "Exiting", color: Color::LightRed },
        };
        let divider = Label { text: " | ", color: Color::White };
        let hint = if self.currently_editing.is_some() {
            Label { text: "Left Arrow to view mode", color: Color::DarkGray }
        } else {
            Label { text: "Right Arrow to edit mode", color: Color::DarkGray }
        };
        match self.current_screen {
            CurrentScreen::Main => FooterMode {
                labels: [mode, divider, hint],
                alignment: Alignment::Left,
            },
            CurrentScreen::Editing => FooterMode {
                labels: [hint, divider, mode],
                alignment: Alignment::Right,
            },
            CurrentScreen::Exiting => FooterMode {
                labels: [mode, divider, hint],
                alignment: Alignment::Center,
            },
        }
    }

    /// The footer that tells what the user is doing.
    pub fn render_key_hint(&self) -> (hint: &'static str)
        ensures
            hint == key_hint(self.currently_editing),
    {
        match self.currently_editing {
            Some(CurrentlyEditing::Key) => "Editing Key",
            Some(CurrentlyEditing::Value) => "Editing Value",
            None => "Viewing",
        }
    }

    /// The colour of the border round the document.
    pub fn json_view_border(&self) -> (color: Color)
        ensures
            color == border_color(self.current_screen is Main),
    {
        match self.current_screen {
            CurrentScreen::Main => Color::Green,
            _ => Color::White,
        }
    }

    /// The colour of the border round the edited element.
    pub fn edition_border(&self) -> (color: Color)
        ensures
            color == border_color(self.current_screen is Editing),
    {
        match self.current_screen {
            CurrentScreen::Editing => Color::Green,
            _ => Color::White,
        }
    }
}

} // verus!
