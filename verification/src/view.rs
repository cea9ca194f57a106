//! What the editor shows: a description of the window, made from the state.
//!
//! The description holds plain values. The host turns it into widgets.

use crate::buffer::buffer_cursor;
use crate::editor::Editor;
use crate::files::{
    error_kind_text, error_kind_to_text, path_extension, path_text, path_to_extension,
    path_to_text, FsError,
};
use crate::message::{Message, Theme};
use vstd::prelude::*;
use vstd::string::StringExecFns;

verus! {

/// The icons of the toolbar.
#[derive(Debug, Clone, Copy, PartialEq, Eq, Structural)]
pub enum Icon {
    New,
    Open,
    Save,
}

/// The code point that shows an icon in the icon font.
pub open spec fn icon_glyph(icon: Icon) -> char {
    match icon {
        Icon::New => '\u{E800}',
        Icon::Open => '\u{F115}',
        Icon::Save => '\u{E801}',
    }
}

/// The glyph of the icon `which` in the icon font.
pub fn icon(which: Icon) -> (glyph: char)
    ensures
        glyph == icon_glyph(which),
{
    match which {
        Icon::New => '\u{E800}',
        Icon::Open => '\u{F115}',
        Icon::Save => '\u{E801}',
    }
}

/// How a toolbar button is drawn.
#[derive(Debug, Clone, Copy, PartialEq, Eq, Structural)]
pub enum ButtonStyle {
    /// The button can be pressed.
    Primary,
    /// The button is disabled.
    Secondary,
}

/// A button of the toolbar.
#[derive(Debug, Clone, PartialEq)]
pub struct ToolButton {
    /// The glyph on the button.
    pub glyph: char,
    /// The message that a press sends; none where the button is disabled.
    pub on_press: Option<Message>,
    /// The style that goes with being enabled or disabled.
    pub style: ButtonStyle,
}

/// A toolbar button that shows `glyph` and sends `on_press`. A button without
/// a message is disabled and drawn in the secondary style.
pub fn action(glyph: char, on_press: Option<Message>) -> (button: ToolButton)
    ensures
        button.glyph == glyph,
        button.on_press == on_press,
        button.style == if on_press is None {
            ButtonStyle::Secondary
        } else {
            ButtonStyle::Primary
        },
{
    let style = if on_press.is_none() {
        ButtonStyle::Secondary
    } else {
        ButtonStyle::Primary
    };
    ToolButton { glyph, on_press, style }
}

/// The syntax that is assumed where the file has no extension.
pub open spec fn default_syntax() -> Seq<char> {
    "rs"@
}

/// What the status line says of a buffer that is bound to no file.
pub open spec fn unsaved_label() -> Seq<char> {
    "New file (unsaved)"@
}

/// The token by which the highlighter picks a syntax: the extension of the
/// file, or the default where there is none.
pub fn syntax(extension: Option<String>) -> (token: String)
    ensures
        token@ == match extension {
            Some(extension) => extension@,
            None => default_syntax(),
        },
{
    match extension {
        Some(extension) => extension,
        None => String::from_str("rs"),
    }
}

/// The left part of the status line: the failure, if one is to be shown, else
/// the path of the file, else the label for an unsaved buffer.
pub fn status(failure: Option<String>, path: Option<String>) -> (line: String)
    ensures
        line@ == match (failure, path) {
            (Some(failure), _) => failure@,
            (None, Some(path)) => path@,
            (None, None) => unsaved_label(),
        },
{
    match failure {
        Some(failure) => failure,
        None => match path {
            Some(path) => path,
            None => String::from_str("New file (unsaved)"),
        },
    }
}

/// The decimal digit for `d`.
pub open spec fn digit(d: nat) -> char
    recommends
        d < 10,
{
    if d == 0 {
        '0'
    } else if d == 1 {
        '1'
    } else if d == 2 {
        '2'
    } else if d == 3 {
        '3'
    } else if d == 4 {
        '4'
    } else if d == 5 {
        '5'
    } else if d == 6 {
        '6'
    } else if d == 7 {
        '7'
    } else if d == 8 {
        '8'
    } else {
        '9'
    }
}

/// The decimal numeral of `n`, without leading zeros.
pub open spec fn decimal(n: nat) -> Seq<char>
    decreases n,
{
    if n < 10 {
        seq![digit(n)]
    } else {
        decimal(n / 10).push(digit(n % 10))
    }
}

/// Where the cursor stands, counted from one: the numeral of the line, a
/// colon, and the numeral of the column.
pub open spec fn position_label(cursor: (usize, usize)) -> Seq<char> {
    decimal((cursor.0 + 1) as nat) + seq![':'] + decimal((cursor.1 + 1) as nat)
}

fn digit_text(d: u128) -> (text: &'static str)
    requires
        d < 10,
    ensures
        text@ == seq![digit(d as nat)],
{
    proof {
        reveal_strlit("0");
        reveal_strlit("1");
        reveal_strlit("2");
        reveal_strlit("3");
        reveal_strlit("4");
        reveal_strlit("5");
        reveal_strlit("6");
        reveal_strlit("7");
        reveal_strlit("8");
        reveal_strlit("9");
    }
    let text = if d == 0 {
        "0"
    } else if d == 1 {
        "1"
    } else if d == 2 {
        "2"
    } else if d == 3 {
        "3"
    } else if d == 4 {
        "4"
    } else if d == 5 {
        "5"
    } else if d == 6 {
        "6"
    } else if d == 7 {
        "7"
    } else if d == 8 {
        "8"
    } else {
        "9"
    };
    assert(text@ =~= seq![digit(d as nat)]);
    text
}

/// Writes `n` as a decimal numeral.
pub fn numeral(n: u128) -> (text: String)
    ensures
        text@ == decimal(n as nat),
    decreases n,
{
    if n < 10 {
        String::from_str(digit_text(n))
    } else {
        let mut text = numeral(n / 10);
        text.append(digit_text(n % 10));
        assert(text@ =~= decimal((n / 10) as nat).push(digit((n % 10) as nat)));
        text
    }
}

/// The right part of the status line for a cursor at `cursor`, which counts
/// lines and columns from zero.
pub fn position(cursor: (usize, usize)) -> (label: String)
    ensures
        label@ == position_label(cursor),
{
    let mut label = numeral(cursor.0 as u128 + 1);
    proof {
        reveal_strlit(":");
    }
    label.append(":");
    let column = numeral(cursor.1 as u128 + 1);
    label.append(column.as_str());
    assert(label@ =~= position_label(cursor));
    label
}

/// The window as the host is to draw it.
#[derive(Debug, Clone, PartialEq)]
pub struct Screen {
    /// Starts a new buffer. Always enabled.
    pub new_button: ToolButton,
    /// Opens a file. Always enabled.
    pub open_button: ToolButton,
    /// Saves the buffer. Enabled while there are unsaved edits.
    pub save_button: ToolButton,
    /// The themes that the selector offers.
    pub themes: Vec<Theme>,
    /// The theme that the selector shows and the highlighter uses.
    pub theme: Theme,
    /// The token by which the highlighter picks a syntax.
    pub syntax: String,
    /// The left part of the status line.
    pub status: String,
    /// The right part of the status line: the cursor as `line:column`.
    pub position: String,
}

impl Editor {
    /// The failure that the status line shows, if any. A closed dialog is no
    /// failure and is not shown.
    pub open spec fn shown_failure(self) -> Option<Seq<char>> {
        match self.error {
            Some(FsError::IOFailed(kind)) => Some(error_kind_text(kind)),
            _ => None,
        }
    }

    /// The path as the status line shows it, where the buffer is bound to one
    /// that can be shown.
    pub open spec fn shown_path(self) -> Option<Seq<char>> {
        match self.path {
            Some(path) => path_text(path),
            None => None,
        }
    }

    /// The left part of the status line.
    pub open spec fn status_line(self) -> Seq<char> {
        match (self.shown_failure(), self.shown_path()) {
            (Some(failure), _) => failure,
            (None, Some(path)) => path,
            (None, None) => unsaved_label(),
        }
    }

    /// The token by which the highlighter picks a syntax.
    pub open spec fn syntax_token(self) -> Seq<char> {
        match self.path {
            Some(path) => match path_extension(path) {
                Some(extension) => extension,
                None => default_syntax(),
            },
            None => default_syntax(),
        }
    }

    /// Whether `screen` shows the state `self`.
    pub open spec fn shown_as(self, screen: Screen) -> bool {
        &&& screen.new_button.glyph == icon_glyph(Icon::New)
        &&& screen.new_button.on_press == Some(Message::New)
        &&& screen.new_button.style == ButtonStyle::Primary
        &&& screen.open_button.glyph == icon_glyph(Icon::Open)
        &&& screen.open_button.on_press == Some(Message::Open)
        &&& screen.open_button.style == ButtonStyle::Primary
        &&& screen.save_button.glyph == icon_glyph(Icon::Save)
        &&& screen.save_button.on_press == if self.is_dirty {
            Some(Message::Save)
        } else {
            None
        }
        &&& screen.save_button.style == if self.is_dirty {
            ButtonStyle::Primary
        } else {
            ButtonStyle::Secondary
        }
        &&& screen.themes@ == Theme::all()
        &&& screen.theme == self.theme
        &&& screen.syntax@ == self.syntax_token()
        &&& screen.status@ == self.status_line()
        &&& screen.position@ == position_label(buffer_cursor(self.content))
    }

    /// Describes the window for the current state. The state is not changed.
    pub fn view(&self) -> (screen: Screen)
        ensures
            self.shown_as(screen),
    {
        let save = if self.is_dirty {
            Some(Message::Save)
        } else {
            None
        };
        let extension = match &self.path {
            Some(path) => path_to_extension(path),
            None => None,
        };
        let failure = match &self.error {
            Some(FsError::IOFailed(kind)) => Some(error_kind_to_text(*kind)),
            _ => None,
        };
        let path = match &self.path {
            Some(path) => path_to_text(path),
            None => None,
        };
        Screen {
            new_button: action(icon(Icon::New), Some(Message::New)),
            open_button: action(icon(Icon::Open), Some(Message::Open)),
            save_button: action(icon(Icon::Save), save),
            themes: Theme::list(),
            theme: self.theme,
            syntax: syntax(extension),
            status: status(failure, path),
            position: position(self.content.cursor_position()),
        }
    }
}

/// A key as the shortcuts see it.
#[derive(Debug, Clone, PartialEq, Eq)]
pub enum Key {
    /// A key that produces this text.
    Character(String),
    /// Any other key.
    Other,
}

/// Whether a key press is the shortcut for saving: the character `S` together
/// with the platform's command modifier.
pub open spec fn is_save_shortcut(key: Key, command: bool) -> bool {
    &&& command
    &&& key matches Key::Character(text)
    &&& text@ == seq!['S']
}

/// The message that a key press stands for, if it is a shortcut.
pub fn on_key_press(key: &Key, command: bool) -> (message: Option<Message>)
    ensures
        message == if is_save_shortcut(*key, command) {
            Some(Message::Save)
        } else {
            None
        },
{
    proof {
        reveal_strlit("S");
    }
    match key {
        Key::Character(text) => {
            let letter = String::from_str("S");
            assert(letter@ =~= seq!['S']);
            if *text == letter && command {
                Some(Message::Save)
            } else {
                None
            }
        },
        Key::Other => None,
    }
}

} // verus!
