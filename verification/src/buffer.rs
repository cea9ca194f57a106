//! The text buffer of the editor.
//!
//! The buffer itself is the toolkit's `text_editor::Content`. Verus cannot look
//! inside it, so its lines are given a name, and each method that the editor
//! calls is wrapped with a contract over that name. The editor's own notion of
//! "the text" is then defined and computed here, from the lines.

use iced::widget::text_editor::{Action, Content};
use vstd::prelude::*;

verus! {

/// An interaction with the buffer (`iced::widget::text_editor::Action`): a cursor
/// motion, a selection, a click, a scroll or an edit. Opaque here; it is handed
/// on to the buffer as it came.
#[verifier::external_type_specification]
#[verifier::external_body]
pub struct ExAction(Action);

/// Whether an action edits the text, as `Action::is_edit` reports it.
pub uninterp spec fn is_editing(action: Action) -> bool;

/// `Action::is_edit`: true exactly for the `Edit` variant. The variant is not
/// visible here, so the answer is named and not restated.
pub assume_specification[ Action::is_edit ](this: &Action) -> (edit: bool)
    ensures
        edit == is_editing(*this),
;

/// `Clone` for `Action` is derived: the copy equals the value that was cloned.
pub assume_specification[ <Action as Clone>::clone ](this: &Action) -> (copy: Action)
    ensures
        copy == *this,
;

/// The editor's text buffer: the toolkit's `text_editor::Content`, with its
/// cursor, selection and layout state.
///
/// The field is public so that a widget can borrow the content for drawing.
/// The library changes it only through the methods below.
#[verifier::external_body]
pub struct TextBuffer {
    pub inner: Content,
}

/// The lines that a buffer holds, first to last, each without its line ending.
pub uninterp spec fn buffer_lines(buffer: TextBuffer) -> Seq<Seq<char>>;

/// The cursor of a buffer: the index of its line, and its byte offset in that line.
pub uninterp spec fn buffer_cursor(buffer: TextBuffer) -> (usize, usize);

/// The lines of a buffer that was made from `text`.
pub uninterp spec fn lines_of_text(text: Seq<char>) -> Seq<Seq<char>>;

/// The lines of `buffer` once `action` has been performed on it.
pub uninterp spec fn lines_after(buffer: TextBuffer, action: Action) -> Seq<Seq<char>>;

/// Whether a text comes back as it is when it is split into lines and the lines
/// are joined again: it holds no carriage return, and does not end in a line
/// feed.
pub open spec fn loads_verbatim(text: Seq<char>) -> bool {
    &&& !text.contains('\r')
    &&& text.len() > 0 ==> text.last() != '\n'
}

/// The lines joined by single line feeds; nothing follows the last line.
pub open spec fn joined(lines: Seq<Seq<char>>) -> Seq<char>
    decreases lines.len(),
{
    if lines.len() == 0 {
        Seq::empty()
    } else if lines.len() == 1 {
        lines[0]
    } else {
        joined(lines.drop_last()) + seq!['\n'] + lines.last()
    }
}

impl TextBuffer {
    /// The text of the buffer: its lines, joined by line feeds.
    pub open spec fn text(self) -> Seq<char> {
        joined(buffer_lines(self))
    }

    /// `Content::new`: an empty buffer. It holds one line, and that line is empty.
    #[verifier::external_body]
    pub(crate) fn new() -> (buffer: Self)
        ensures
            buffer_lines(buffer) == seq![Seq::<char>::empty()],
    {
        TextBuffer { inner: Content::new() }
    }

    /// `Content::with_text`: a buffer that holds `text`, split into lines at its
    /// line endings. How the toolkit splits is named, not restated, but for
    /// this: it ends a line at each line feed, at each carriage return, and at
    /// a pair of the two, and a line ending at the very end of the text opens
    /// no further line. So a text without carriage returns that does not end in
    /// a line feed is split at its line feeds and nowhere else.
    #[verifier::external_body]
    pub(crate) fn with_text(text: &str) -> (buffer: Self)
        ensures
            buffer_lines(buffer) == lines_of_text(text@),
            loads_verbatim(text@) ==> joined(buffer_lines(buffer)) == text@,
    {
        TextBuffer { inner: Content::with_text(text) }
    }

    /// `Content::perform`: applies `action` to the buffer. What an edit does to
    /// the lines is the toolkit's business and is named; an action that is no
    /// edit moves the cursor, the selection or the scroll position and leaves
    /// every line as it was.
    #[verifier::external_body]
    pub(crate) fn perform(&mut self, action: Action)
        ensures
            buffer_lines(*final(self)) == lines_after(*old(self), action),
            !is_editing(action) ==> buffer_lines(*final(self)) == buffer_lines(*old(self)),
    {
        self.inner.perform(action)
    }

    /// `Content::lines`: the lines of the buffer in order, each copied into a
    /// `String`.
    #[verifier::external_body]
    pub(crate) fn lines(&self) -> (lines: Vec<String>)
        ensures
            lines@.len() == buffer_lines(*self).len(),
            forall|i: int| 0 <= i < lines@.len() ==> (#[trigger] lines@[i])@ == buffer_lines(*self)[i],
    {
        self.inner.lines().map(|line| line.to_string()).collect()
    }

    /// `Content::cursor_position`: the line of the cursor and its offset in it,
    /// both counted from zero.
    #[verifier::external_body]
    pub(crate) fn cursor_position(&self) -> (position: (usize, usize))
        ensures
            position == buffer_cursor(*self),
    {
        self.inner.cursor_position()
    }

    /// Reads the text out of the buffer.
    pub fn read_text(&self) -> (text: String)
        ensures
            text@ == self.text(),
    {
        let lines = self.lines();
        proof {
            assert(line_views(lines@) =~= buffer_lines(*self));
        }
        join_lines(&lines)
    }
}

/// The views of the strings of `lines`, in order.
pub open spec fn line_views(lines: Seq<String>) -> Seq<Seq<char>> {
    Seq::new(lines.len(), |i: int| lines[i]@)
}

/// Joins `lines` with line feeds.
pub fn join_lines(lines: &Vec<String>) -> (text: String)
    ensures
        text@ == joined(line_views(lines@)),
{
    let mut text = String::new();
    let mut i: usize = 0;
    let ghost all = line_views(lines@);
    proof {
        reveal_strlit("\n");
        assert(all.take(0) =~= Seq::<Seq<char>>::empty());
    }
    while i < lines.len()
        invariant
            i <= lines.len(),
            all == line_views(lines@),
            text@ == joined(all.take(i as int)),
            "\n"@ == seq!['\n'],
        decreases lines.len() - i,
    {
        let ghost before = all.take(i as int);
        let ghost now = all.take(i + 1);
        proof {
            assert(now.drop_last() =~= before);
            assert(now.last() == lines@[i as int]@);
        }
        if i > 0 {
            text.append("\n");
        }
        text.append(lines[i].as_str());
        proof {
            if i == 0 {
                assert(before.len() == 0);
                assert(text@ =~= now[0]);
            } else {
                assert(text@ =~= joined(before) + seq!['\n'] + now.last());
            }
        }
        i = i + 1;
    }
    proof {
        assert(all.take(i as int) =~= all);
    }
    text
}

} // verus!
