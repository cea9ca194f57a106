//! What holds of the editor across messages.

use crate::buffer::{is_editing, joined, lines_after, loads_verbatim};
use crate::editor::Editor;
use crate::files::{picked, FsError};
use crate::message::{Effect, Message};
use crate::view::Screen;
use iced::widget::text_editor::Action;
use std::path::PathBuf;
use std::sync::Arc;
use vstd::prelude::*;

verus! {

/// Whether a message reports a file that was loaded or saved.
pub open spec fn settles(message: Message) -> bool {
    message matches Message::FileOpened(Ok(_)) || message matches Message::FileSaved(Ok(_))
}

/// The message that reports an open that ended with `error`.
pub open spec fn open_failed(error: FsError) -> Message {
    Message::FileOpened(Err::<(PathBuf, Arc<String>), FsError>(error))
}

/// The text after an action is the buffer's own answer to that action: the
/// editor puts nothing of its own between the action and the buffer.
pub proof fn lemma_edit_is_the_buffers(pre: Editor, action: Action, post: Editor)
    requires
        Editor::follows(pre, Message::Edit(action), post),
    ensures
        post.content.text() == joined(lines_after(pre.content, action)),
        !is_editing(action) ==> post.content.text() == pre.content.text(),
{
}

/// The buffer is clean right after a file was loaded or saved, and dirty again
/// after any edit that follows.
pub proof fn lemma_clean_then_dirty(
    pre: Editor,
    message: Message,
    clean: Editor,
    action: Action,
    post: Editor,
)
    requires
        settles(message),
        Editor::follows(pre, message, clean),
        is_editing(action),
        Editor::follows(clean, Message::Edit(action), post),
    ensures
        !clean.is_dirty,
        post.is_dirty,
{
}

/// A dirty buffer stays dirty until a file is loaded or saved.
pub proof fn lemma_dirty_until_settled(pre: Editor, message: Message, post: Editor)
    requires
        pre.is_dirty,
        !settles(message),
        Editor::follows(pre, message, post),
    ensures
        post.is_dirty,
{
}

/// Only an edit, or asking for a new buffer, dirties a clean buffer.
pub proof fn lemma_clean_until_edited(pre: Editor, message: Message, post: Editor)
    requires
        !pre.is_dirty,
        Editor::follows(pre, message, post),
        post.is_dirty,
    ensures
        message is New || (message matches Message::Edit(action) && is_editing(action)),
{
}

/// Asking to open and then closing the dialog leaves the text, the path, the
/// theme and the dirty flag as they were.
pub proof fn lemma_closed_dialog_keeps_buffer(pre: Editor, asked: Editor, post: Editor)
    requires
        Editor::follows(pre, Message::Open, asked),
        picked(None) matches Err(error) && Editor::follows(asked, open_failed(error), post),
    ensures
        post.content == pre.content,
        post.path == pre.path,
        post.is_dirty == pre.is_dirty,
        post.theme == pre.theme,
        post.error == Some(FsError::DialogClosed),
{
}

/// A text that is saved and read back from its file arrives in the buffer as it
/// left: `effect` is what the editor asks on `Save`, `file` is what the host
/// read back, holding the text that it wrote. The text must be one that loads
/// verbatim.
pub proof fn lemma_saved_text_loads_back(
    pre: Editor,
    effect: Effect,
    reopened: Editor,
    file: (PathBuf, Arc<String>),
    post: Editor,
)
    requires
        Editor::asks(pre, Message::Save, effect),
        effect matches Effect::Save { path, text } && file.1@ == text@,
        loads_verbatim(file.1@),
        Editor::follows(reopened, Message::FileOpened(Ok(file)), post),
    ensures
        post.content.text() == pre.content.text(),
        !post.is_dirty,
{
}

/// A buffer that is bound to a file stays bound until a new buffer is asked for.
pub proof fn lemma_path_stays_bound(pre: Editor, message: Message, post: Editor)
    requires
        pre.path is Some,
        !(message is New),
        Editor::follows(pre, message, post),
    ensures
        post.path is Some,
{
}

/// The state decides what is shown: two descriptions of one state agree in
/// every button, in the theme and in every text.
pub proof fn lemma_view_is_determined(editor: Editor, first: Screen, second: Screen)
    requires
        editor.shown_as(first),
        editor.shown_as(second),
    ensures
        first.new_button == second.new_button,
        first.open_button == second.open_button,
        first.save_button == second.save_button,
        first.themes@ == second.themes@,
        first.theme == second.theme,
        first.syntax@ == second.syntax@,
        first.status@ == second.status@,
        first.position@ == second.position@,
{
}

} // verus!
