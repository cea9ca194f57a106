//! What the editor is told, and what it asks of its host in return.

use crate::files::FsError;
use iced::widget::text_editor::Action;
use std::path::PathBuf;
use std::sync::Arc;
use vstd::prelude::*;

verus! {

/// A highlighting theme for the text surface.
#[derive(Debug, Clone, Copy, PartialEq, Eq, Structural)]
pub enum Theme {
    SolarizedDark,
    Base16Mocha,
    Base16Ocean,
    Base16Eighties,
    InspiredGitHub,
}

impl Theme {
    /// The theme that the editor starts in.
    pub open spec fn initial() -> Theme {
        Theme::SolarizedDark
    }

    /// Every theme, in the order in which a selector offers them.
    pub open spec fn all() -> Seq<Theme> {
        seq![
            Theme::SolarizedDark,
            Theme::Base16Mocha,
            Theme::Base16Ocean,
            Theme::Base16Eighties,
            Theme::InspiredGitHub,
        ]
    }

    /// The themes that a selector offers.
    pub fn list() -> (themes: Vec<Theme>)
        ensures
            themes@ == Theme::all(),
    {
        let themes = vec![
            Theme::SolarizedDark,
            Theme::Base16Mocha,
            Theme::Base16Ocean,
            Theme::Base16Eighties,
            Theme::InspiredGitHub,
        ];
        assert(themes@ =~= Theme::all());
        themes
    }
}

/// `Clone` for `Result`: each side is cloned by its own `Clone`, of which
/// nothing is claimed.
pub assume_specification<T, E>[ <Result<T, E> as Clone>::clone ](result: &Result<T, E>) -> (copy:
    Result<T, E>)
    where
        E: Clone,
        T: Clone,
;

/// An event that the editor folds into its state.
#[derive(Debug, Clone, PartialEq)]
pub enum Message {
    /// The user acted on the text surface.
    Edit(Action),
    /// An open has ended: with the path and the text read, or with an error.
    FileOpened(Result<(PathBuf, Arc<String>), FsError>),
    /// The user asked to open a file.
    Open,
    /// The user asked for a new buffer.
    New,
    /// The user asked to save.
    Save,
    /// A save has ended: with the path written to, or with an error.
    FileSaved(Result<PathBuf, FsError>),
    /// The user selected a highlighting theme.
    ThemeSelected(Theme),
}

/// What the host is to do after an update. Each effect but `Nothing` ends in one
/// message that the host hands back to the editor.
#[derive(Debug, Clone, PartialEq)]
pub enum Effect {
    /// Nothing is asked.
    Nothing,
    /// Read this file, and report with `Message::FileOpened`.
    Load(PathBuf),
    /// Let the user pick a file, read it, and report with `Message::FileOpened`.
    PickFile,
    /// Write `text` to `path`, or, where `path` is none, to a path that the user
    /// picks, and report with `Message::FileSaved`.
    Save { path: Option<PathBuf>, text: String },
}

} // verus!
