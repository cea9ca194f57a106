use editor::editor::Editor;
use editor::files::{file_written, load_file, pick_file, save_file, FsError, SaveStep};
use editor::message::{Effect, Message, Theme};
use iced::widget::text_editor::{Action, Edit, Motion};
use std::io::ErrorKind;
use std::path::PathBuf;
use std::sync::Arc;

fn start() -> Editor {
    Editor::new(PathBuf::from("startup.txt")).0
}

fn insert(editor: &mut Editor, text: &str) -> Effect {
    editor.update(Message::Edit(Action::Edit(Edit::Paste(Arc::new(text.to_string())))))
}

fn opened(path: &str, text: &str) -> Message {
    Message::FileOpened(Ok((PathBuf::from(path), Arc::new(text.to_string()))))
}

#[test]
fn editor_starts_empty_and_loads_the_startup_file() {
    let (editor, effect) = Editor::new(PathBuf::from("startup.txt"));
    assert_eq!(editor.path, None);
    assert_eq!(editor.content.read_text(), "");
    assert_eq!(editor.error, None);
    assert_eq!(editor.theme, Theme::SolarizedDark);
    assert!(editor.is_dirty);
    assert_eq!(effect, Effect::Load(PathBuf::from("startup.txt")));
}

#[test]
fn insert_then_save_to_bound_path() {
    let mut editor = start();
    editor.update(Message::FileSaved(Ok(PathBuf::from("/tmp/f.txt"))));
    assert!(!editor.is_dirty);

    let effect = insert(&mut editor, "ab");
    assert_eq!(effect, Effect::Nothing);
    assert_eq!(editor.content.read_text(), "ab");
    assert!(editor.is_dirty);

    let effect = editor.update(Message::Save);
    assert_eq!(
        effect,
        Effect::Save { path: Some(PathBuf::from("/tmp/f.txt")), text: "ab".to_string() }
    );
    assert!(editor.is_dirty);

    let step = match effect {
        Effect::Save { path, .. } => save_file(path),
        _ => unreachable!(),
    };
    assert_eq!(step, SaveStep::Write(PathBuf::from("/tmp/f.txt")));
    let saved = file_written(PathBuf::from("/tmp/f.txt"), Ok(()));
    let effect = editor.update(Message::FileSaved(saved));
    assert_eq!(effect, Effect::Nothing);
    assert!(!editor.is_dirty);
    assert_eq!(editor.path, Some(PathBuf::from("/tmp/f.txt")));
    assert_eq!(editor.content.read_text(), "ab");
}

#[test]
fn typed_characters_arrive_in_the_text() {
    let mut editor = start();
    editor.update(Message::Edit(Action::Edit(Edit::Insert('a'))));
    editor.update(Message::Edit(Action::Edit(Edit::Insert('b'))));
    assert_eq!(editor.content.read_text(), "ab");
    assert!(editor.is_dirty);
}

#[test]
fn failed_open_sets_the_error_and_keeps_the_text() {
    let mut editor = start();
    editor.update(opened("/tmp/f.txt", "kept"));
    let effect =
        editor.update(Message::FileOpened(Err(FsError::IOFailed(ErrorKind::NotFound))));
    assert_eq!(effect, Effect::Nothing);
    assert_eq!(editor.error, Some(FsError::IOFailed(ErrorKind::NotFound)));
    assert_eq!(editor.content.read_text(), "kept");
    assert_eq!(editor.path, Some(PathBuf::from("/tmp/f.txt")));
    assert!(!editor.is_dirty);
}

#[test]
fn new_after_dirty_bound_state() {
    let mut editor = start();
    editor.update(opened("/tmp/f.txt", "text"));
    insert(&mut editor, "more");
    editor.update(Message::FileSaved(Err(FsError::IOFailed(ErrorKind::PermissionDenied))));
    assert!(editor.is_dirty);
    assert!(editor.path.is_some());
    assert!(editor.error.is_some());

    let effect = editor.update(Message::New);
    assert_eq!(effect, Effect::Nothing);
    assert_eq!(editor.path, None);
    assert_eq!(editor.content.read_text(), "");
    assert!(editor.is_dirty);
    assert_eq!(editor.error, None);
}

#[test]
fn opened_file_replaces_the_text_and_cleans() {
    let mut editor = start();
    insert(&mut editor, "old");
    editor.update(Message::FileSaved(Err(FsError::IOFailed(ErrorKind::Other))));
    let effect = editor.update(opened("/tmp/notes.md", "first\nsecond"));
    assert_eq!(effect, Effect::Nothing);
    assert_eq!(editor.path, Some(PathBuf::from("/tmp/notes.md")));
    assert_eq!(editor.content.read_text(), "first\nsecond");
    assert!(!editor.is_dirty);
    assert_eq!(editor.error, None);
}

#[test]
fn saved_file_binds_the_path_and_cleans() {
    let mut editor = start();
    insert(&mut editor, "ab");
    editor.update(Message::FileOpened(Err(FsError::DialogClosed)));
    let effect = editor.update(Message::FileSaved(Ok(PathBuf::from("/tmp/out.txt"))));
    assert_eq!(effect, Effect::Nothing);
    assert_eq!(editor.path, Some(PathBuf::from("/tmp/out.txt")));
    assert!(!editor.is_dirty);
    assert_eq!(editor.content.read_text(), "ab");
    assert_eq!(editor.error, Some(FsError::DialogClosed));
}

#[test]
fn failed_save_sets_the_error_only() {
    let mut editor = start();
    insert(&mut editor, "ab");
    let effect =
        editor.update(Message::FileSaved(Err(FsError::IOFailed(ErrorKind::PermissionDenied))));
    assert_eq!(effect, Effect::Nothing);
    assert_eq!(editor.error, Some(FsError::IOFailed(ErrorKind::PermissionDenied)));
    assert_eq!(editor.path, None);
    assert!(editor.is_dirty);
    assert_eq!(editor.content.read_text(), "ab");
}

#[test]
fn clean_after_load_or_save_then_dirty_after_edit() {
    let mut editor = start();
    editor.update(opened("/tmp/f.txt", "x"));
    assert!(!editor.is_dirty);
    editor.update(Message::Edit(Action::Edit(Edit::Backspace)));
    assert!(editor.is_dirty);
    editor.update(Message::FileSaved(Ok(PathBuf::from("/tmp/f.txt"))));
    assert!(!editor.is_dirty);
    editor.update(Message::Edit(Action::Edit(Edit::Enter)));
    assert!(editor.is_dirty);
}

#[test]
fn motion_does_not_dirty_but_clears_the_error() {
    let mut editor = start();
    editor.update(opened("/tmp/f.txt", "one\ntwo"));
    editor.update(Message::FileOpened(Err(FsError::IOFailed(ErrorKind::NotFound))));
    assert!(editor.error.is_some());
    let effect = editor.update(Message::Edit(Action::Move(Motion::Right)));
    assert_eq!(effect, Effect::Nothing);
    assert!(!editor.is_dirty);
    assert_eq!(editor.error, None);
    assert_eq!(editor.content.read_text(), "one\ntwo");
    editor.update(Message::Edit(Action::Select(Motion::DocumentEnd)));
    editor.update(Message::Edit(Action::SelectAll));
    assert!(!editor.is_dirty);
    assert_eq!(editor.content.read_text(), "one\ntwo");
}

#[test]
fn dirty_stays_dirty_until_loaded_or_saved() {
    let mut editor = start();
    editor.update(opened("/tmp/f.txt", "x"));
    insert(&mut editor, "y");
    assert!(editor.is_dirty);
    editor.update(Message::Open);
    editor.update(Message::Save);
    editor.update(Message::ThemeSelected(Theme::Base16Ocean));
    editor.update(Message::Edit(Action::Move(Motion::Left)));
    editor.update(Message::FileOpened(Err(FsError::DialogClosed)));
    editor.update(Message::FileSaved(Err(FsError::DialogClosed)));
    assert!(editor.is_dirty);
}

#[test]
fn open_then_closed_dialog_keeps_the_buffer() {
    let mut editor = start();
    editor.update(opened("/tmp/f.txt", "text"));
    insert(&mut editor, "!");
    let text = editor.content.read_text();

    let effect = editor.update(Message::Open);
    assert_eq!(effect, Effect::PickFile);
    let outcome = pick_file(None);
    assert_eq!(outcome, Err(FsError::DialogClosed));
    let message = match outcome {
        Ok(path) => Message::FileOpened(load_file(path, Ok(String::new()))),
        Err(error) => Message::FileOpened(Err(error)),
    };
    let effect = editor.update(message);

    assert_eq!(effect, Effect::Nothing);
    assert_eq!(editor.content.read_text(), text);
    assert_eq!(editor.path, Some(PathBuf::from("/tmp/f.txt")));
    assert!(editor.is_dirty);
    assert_eq!(editor.error, Some(FsError::DialogClosed));
}

#[test]
fn open_asks_for_a_file_and_changes_nothing() {
    let mut editor = start();
    editor.update(opened("/tmp/f.txt", "text"));
    let effect = editor.update(Message::Open);
    assert_eq!(effect, Effect::PickFile);
    assert_eq!(editor.path, Some(PathBuf::from("/tmp/f.txt")));
    assert_eq!(editor.content.read_text(), "text");
    assert!(!editor.is_dirty);
    assert_eq!(editor.error, None);
}

#[test]
fn save_without_path_hands_out_the_text_and_no_path() {
    let mut editor = start();
    insert(&mut editor, "line one\nline two");
    let effect = editor.update(Message::Save);
    assert_eq!(effect, Effect::Save { path: None, text: "line one\nline two".to_string() });
    assert!(editor.is_dirty);
    assert_eq!(editor.path, None);
}

#[test]
fn theme_selection_changes_the_theme_only() {
    let mut editor = start();
    editor.update(opened("/tmp/f.txt", "text"));
    let effect = editor.update(Message::ThemeSelected(Theme::InspiredGitHub));
    assert_eq!(effect, Effect::Nothing);
    assert_eq!(editor.theme, Theme::InspiredGitHub);
    assert_eq!(editor.path, Some(PathBuf::from("/tmp/f.txt")));
    assert_eq!(editor.content.read_text(), "text");
    assert!(!editor.is_dirty);
}

#[test]
fn saved_text_loads_back_the_same() {
    let mut editor = start();
    insert(&mut editor, "alpha\nbeta\n\ngamma");
    let written = match editor.update(Message::Save) {
        Effect::Save { text, .. } => text,
        _ => unreachable!(),
    };
    editor.update(Message::FileSaved(Ok(PathBuf::from("/tmp/f.txt"))));
    editor.update(Message::FileOpened(load_file(PathBuf::from("/tmp/f.txt"), Ok(written.clone()))));
    assert_eq!(editor.content.read_text(), written);
    assert_eq!(written, "alpha\nbeta\n\ngamma");
}

#[test]
fn messages_can_be_cloned() {
    let message = opened("/tmp/f.txt", "text");
    assert_eq!(message.clone(), message);
    let message = Message::Edit(Action::Edit(Edit::Insert('x')));
    assert_eq!(message.clone(), message);
    let message = Message::FileSaved(Err(FsError::IOFailed(ErrorKind::NotFound)));
    assert_eq!(message.clone(), message);
}
