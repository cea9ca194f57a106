//! Decisions around opening and saving files.
//!
//! The dialogs and the file system belong to the host. It shows a dialog, reads
//! or writes, and hands the outcome to the functions here, which say what the
//! outcome means for the editor.

use std::io::ErrorKind;
use std::path::PathBuf;
use std::sync::Arc;
use vstd::prelude::*;
use vstd::string::StringExecFns;

verus! {

/// A path in the file system (`std::path::PathBuf`). Opaque here: it is carried
/// from a dialog to the editor and back to the host.
#[verifier::external_type_specification]
#[verifier::external_body]
pub struct ExPathBuf(PathBuf);

/// The category of an I/O failure (`std::io::ErrorKind`). Opaque here.
#[verifier::external_type_specification]
#[verifier::external_body]
pub struct ExErrorKind(ErrorKind);

/// `Clone` for `PathBuf`: the copy equals the value that was cloned.
pub assume_specification[ <PathBuf as Clone>::clone ](path: &PathBuf) -> (copy: PathBuf)
    ensures
        copy == *path,
;

/// `Clone` for `ErrorKind`, a `Copy` type: the copy equals the value that was cloned.
pub assume_specification[ <ErrorKind as Clone>::clone ](kind: &ErrorKind) -> (copy: ErrorKind)
    ensures
        copy == *kind,
;

/// The path that a text denotes.
pub uninterp spec fn path_of(text: Seq<char>) -> PathBuf;

/// The text of a path, where the path is valid Unicode.
pub uninterp spec fn path_text(path: PathBuf) -> Option<Seq<char>>;

/// The extension of a path's file name, where it has one that is valid Unicode.
pub uninterp spec fn path_extension(path: PathBuf) -> Option<Seq<char>>;

/// The message that describes a kind of I/O failure.
pub uninterp spec fn error_kind_text(kind: ErrorKind) -> Seq<char>;

/// `PathBuf::from` on a `String`: the path that the text denotes.
#[verifier::external_body]
pub(crate) fn path_from(text: String) -> (path: PathBuf)
    ensures
        path == path_of(text@),
{
    PathBuf::from(text)
}

/// `Path::to_str`: the path as text, or nothing where it is not valid Unicode.
#[verifier::external_body]
pub(crate) fn path_to_text(path: &PathBuf) -> (text: Option<String>)
    ensures
        text is Some == path_text(*path) is Some,
        text is Some ==> text->0@ == path_text(*path)->0,
{
    path.to_str().map(|text| text.to_string())
}

/// `Path::extension`: the part of the file name after its last dot, as text, or
/// nothing where there is none or it is not valid Unicode.
#[verifier::external_body]
pub(crate) fn path_to_extension(path: &PathBuf) -> (extension: Option<String>)
    ensures
        extension is Some == path_extension(*path) is Some,
        extension is Some ==> extension->0@ == path_extension(*path)->0,
{
    path.extension().and_then(|extension| extension.to_str()).map(|text| text.to_string())
}

/// `ErrorKind`'s `Display`: the fixed message of the kind.
#[verifier::external_body]
pub(crate) fn error_kind_to_text(kind: ErrorKind) -> (text: String)
    ensures
        text@ == error_kind_text(kind),
{
    kind.to_string()
}

/// Why a file operation did not give a file.
#[derive(Debug, Clone, PartialEq, Eq)]
pub enum FsError {
    /// The user closed the dialog without choosing. Not a failure of the system.
    DialogClosed,
    /// The file system refused; the kind says why.
    IOFailed(ErrorKind),
}

/// What a file dialog comes to: the chosen path, or `DialogClosed` where the
/// user chose none.
pub open spec fn picked(choice: Option<PathBuf>) -> Result<PathBuf, FsError> {
    match choice {
        Some(path) => Ok(path),
        None => Err(FsError::DialogClosed),
    }
}

/// The outcome of a file dialog: the chosen path, or `DialogClosed` where the
/// user chose none.
pub fn pick_file(choice: Option<PathBuf>) -> (outcome: Result<PathBuf, FsError>)
    ensures
        outcome == picked(choice),
{
    match choice {
        Some(path) => Ok(path),
        None => Err(FsError::DialogClosed),
    }
}

/// The outcome of reading `path`: the path with the text read, or the I/O
/// failure by its kind.
pub fn load_file(path: PathBuf, read: Result<String, ErrorKind>) -> (loaded: Result<
    (PathBuf, Arc<String>),
    FsError,
>)
    ensures
        match read {
            Ok(text) => loaded matches Ok(file) && file.0 == path && *file.1 == text,
            Err(kind) => loaded matches Err(error) && error == FsError::IOFailed(kind),
        },
{
    match read {
        Ok(text) => Ok((path, Arc::new(text))),
        Err(kind) => Err(FsError::IOFailed(kind)),
    }
}

/// The first step of a save.
#[derive(Debug, Clone, PartialEq)]
pub enum SaveStep {
    /// The buffer has no path yet: ask the user for one.
    Choose,
    /// Write to this path.
    Write(PathBuf),
}

/// Where a save begins: with the path that the buffer is bound to, or, where it
/// has none, with a dialog.
pub fn save_file(path: Option<PathBuf>) -> (step: SaveStep)
    ensures
        step == match path {
            Some(path) => SaveStep::Write(path),
            None => SaveStep::Choose,
        },
{
    match path {
        Some(path) => SaveStep::Write(path),
        None => SaveStep::Choose,
    }
}

/// The outcome of writing to `path`: the path, or the I/O failure by its kind.
pub fn file_written(path: PathBuf, written: Result<(), ErrorKind>) -> (saved: Result<
    PathBuf,
    FsError,
>)
    ensures
        saved == match written {
            Ok(_) => Ok::<PathBuf, FsError>(path),
            Err(kind) => Err(FsError::IOFailed(kind)),
        },
{
    match written {
        Ok(_) => Ok(path),
        Err(kind) => Err(FsError::IOFailed(kind)),
    }
}

/// The text that is appended to the project's directory to name the file that
/// is opened at startup.
pub open spec fn default_file_suffix() -> Seq<char> {
    "\\src\\main.rs"@
}

/// The file that is opened at startup: `src\main.rs` below the project's
/// directory, the separators written as backslashes.
pub fn default_file(project_dir: &str) -> (path: PathBuf)
    ensures
        path == path_of(project_dir@ + default_file_suffix()),
{
    let text = String::from_str(project_dir).concat("\\src\\main.rs");
    path_from(text)
}

} // verus!
