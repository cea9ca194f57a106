//! The editor's state, and how a message changes it.

use crate::buffer::{
    buffer_lines, is_editing, lines_after, lines_of_text, loads_verbatim, TextBuffer,
};
use crate::files::FsError;
use crate::message::{Effect, Message, Theme};
use std::path::PathBuf;
use vstd::prelude::*;

verus! {

/// The state of the editor. There is one per running application; every
/// message changes it in place.
pub struct Editor {
    /// The file that the buffer is bound to: set once a file has been opened or
    /// saved, none for a buffer that was never saved.
    pub path: Option<PathBuf>,
    /// The text with its cursor and selection.
    pub content: TextBuffer,
    /// The last failure, for display.
    pub error: Option<FsError>,
    /// The highlighting theme.
    pub theme: Theme,
    /// Whether the text has been edited since it was last loaded or saved.
    pub is_dirty: bool,
}

impl Editor {
    /// Whether `post` is the state that follows `pre` on `message`.
    ///
    /// An action on the text dirties the buffer if it is an edit, and clears the
    /// error. A file that was opened replaces the text, binds the path, and
    /// leaves the buffer clean and without error. A file that was saved binds
    /// the path and leaves the buffer clean. A failed open or save sets the
    /// error and nothing else. A new buffer is empty, unbound, dirty and
    /// without error. Asking to open or to save changes nothing by itself.
    pub open spec fn follows(pre: Editor, message: Message, post: Editor) -> bool {
        match message {
            Message::Edit(action) => {
                &&& post.path == pre.path
                &&& post.theme == pre.theme
                &&& post.error is None
                &&& post.is_dirty == (pre.is_dirty || is_editing(action))
                &&& buffer_lines(post.content) == lines_after(pre.content, action)
                &&& !is_editing(action) ==> buffer_lines(post.content) == buffer_lines(
                    pre.content,
                )
            },
            Message::FileOpened(Ok(file)) => {
                &&& post.path == Some(file.0)
                &&& post.theme == pre.theme
                &&& post.error is None
                &&& !post.is_dirty
                &&& buffer_lines(post.content) == lines_of_text(file.1@)
                &&& loads_verbatim(file.1@) ==> post.content.text() == file.1@
            },
            Message::FileOpened(Err(error)) => {
                &&& post.error == Some(error)
                &&& post.path == pre.path
                &&& post.theme == pre.theme
                &&& post.is_dirty == pre.is_dirty
                &&& post.content == pre.content
            },
            Message::New => {
                &&& post.path is None
                &&& post.theme == pre.theme
                &&& post.error is None
                &&& post.is_dirty
                &&& buffer_lines(post.content) == seq![Seq::<char>::empty()]
            },
            Message::Open | Message::Save => post == pre,
            Message::FileSaved(Ok(path)) => {
                &&& post.path == Some(path)
                &&& post.theme == pre.theme
                &&& post.error == pre.error
                &&& !post.is_dirty
                &&& post.content == pre.content
            },
            Message::FileSaved(Err(error)) => {
                &&& post.error == Some(error)
                &&& post.path == pre.path
                &&& post.theme == pre.theme
                &&& post.is_dirty == pre.is_dirty
                &&& post.content == pre.content
            },
            Message::ThemeSelected(theme) => {
                &&& post.theme == theme
                &&& post.path == pre.path
                &&& post.error == pre.error
                &&& post.is_dirty == pre.is_dirty
                &&& post.content == pre.content
            },
        }
    }

    /// Whether `effect` is what the editor asks of its host when it is in state
    /// `pre` and receives `message`: a dialog and a read on `Open`, a write of
    /// the current text to the current path on `Save`, nothing otherwise.
    pub open spec fn asks(pre: Editor, message: Message, effect: Effect) -> bool {
        match message {
            Message::Open => effect is PickFile,
            Message::Save => effect matches Effect::Save { path, text } && path == pre.path
                && text@ == pre.content.text(),
            _ => effect is Nothing,
        }
    }

    /// The state at startup: an empty, unbound, dirty buffer without error, in
    /// the initial theme. The host is asked to load `startup_file`.
    pub fn new(startup_file: PathBuf) -> (start: (Self, Effect))
        ensures
            start.0.path is None,
            start.0.content.text() == Seq::<char>::empty(),
            buffer_lines(start.0.content) == seq![Seq::<char>::empty()],
            start.0.error is None,
            start.0.theme == Theme::initial(),
            start.0.is_dirty,
            start.1 == Effect::Load(startup_file),
    {
        let editor = Editor {
            path: None,
            content: TextBuffer::new(),
            error: None,
            theme: Theme::SolarizedDark,
            is_dirty: true,
        };
        (editor, Effect::Load(startup_file))
    }

    /// Folds `message` into the state and says what the host is to do next.
    pub fn update(&mut self, message: Message) -> (effect: Effect)
        ensures
            Self::follows(*old(self), message, *final(self)),
            Self::asks(*old(self), message, effect),
    {
        match message {
            Message::Edit(action) => {
                self.is_dirty = self.is_dirty || action.is_edit();
                self.error = None;
                self.content.perform(action);
                Effect::Nothing
            },
            Message::FileOpened(result) => match result {
                Ok((path, text)) => {
                    self.path = Some(path);
                    self.content = TextBuffer::with_text(text.as_str());
                    self.is_dirty = false;
                    self.error = None;
                    Effect::Nothing
                },
                Err(error) => {
                    self.error = Some(error);
                    Effect::Nothing
                },
            },
            Message::New => {
                self.path = None;
                self.content = TextBuffer::new();
                self.is_dirty = true;
                self.error = None;
                Effect::Nothing
            },
            Message::Open => Effect::PickFile,
            Message::Save => {
                let text = self.content.read_text();
                Effect::Save { path: self.path.clone(), text }
            },
            Message::FileSaved(result) => match result {
                Ok(path) => {
                    self.path = Some(path);
                    self.is_dirty = false;
                    Effect::Nothing
                },
                Err(error) => {
                    self.error = Some(error);
                    Effect::Nothing
                },
            },
            Message::ThemeSelected(theme) => {
                self.theme = theme;
                Effect::Nothing
            },
        }
    }
}

} // verus!
