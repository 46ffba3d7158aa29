//! The URL-entry text buffer.
//!
//! The modal input line is `tui_input::Input`: an editable text value with
//! a cursor, measured in codepoints. The buffer is consumed through a small
//! trusted surface: two names for what it holds ([`text_of`], [`cursor_of`])
//! and one wrapper per request family. Insertion is exact; cursor motion
//! and deletion step one grapheme or word at a time, which may span several
//! codepoints, so their contracts bound the step instead of fixing it.
//!
//! [`key_to_edit`] is the shell's routing table from keystrokes to edit
//! requests; it is verified, and mirrors the classic line-editing bindings
//! (arrows, home/end, control letters) the terminal front end offers.

use vstd::prelude::*;

use crate::keys::{KeyCode, KeyEvent};

verus! {

#[verifier::external_type_specification]
#[verifier::external_body]
pub struct ExInput(tui_input::Input);

/// The buffer's text, as a sequence of codepoints.
pub uninterp spec fn text_of(i: tui_input::Input) -> Seq<char>;

/// The number of codepoints before the cursor.
pub uninterp spec fn cursor_of(i: tui_input::Input) -> int;

/// A cursor motion the editor performs.
#[derive(Clone, Copy, Debug, PartialEq, Eq, Structural)]
pub enum Motion {
    PrevChar,
    NextChar,
    PrevWord,
    NextWord,
    Start,
    End,
}

/// A deletion the editor performs.
#[derive(Clone, Copy, Debug, PartialEq, Eq, Structural)]
pub enum Deletion {
    PrevChar,
    NextChar,
    PrevWord,
    NextWord,
    Line,
    TillEnd,
}

/// One edit request routed to the text buffer.
#[derive(Clone, Copy, Debug, PartialEq, Eq, Structural)]
pub enum Edit {
    InsertChar(char),
    Move(Motion),
    Delete(Deletion),
    Yank,
}

/// How an insertion changes buffer `b` with cursor `c` into `b2` with
/// cursor `c2`: the character lands at the cursor and the cursor steps past
/// it.
pub open spec fn insert_ok(b: Seq<char>, c: int, ch: char, b2: Seq<char>, c2: int) -> bool {
    &&& 0 <= c2 <= b2.len()
    &&& b2 == b.subrange(0, c) + seq![ch] + b.subrange(c, b.len() as int)
    &&& c2 == c + 1
}

/// How a motion changes the cursor: the text is untouched; word and
/// grapheme steps move strictly toward their end but by an unspecified
/// number of codepoints; at the boundary nothing moves.
pub open spec fn motion_ok(b: Seq<char>, c: int, m: Motion, b2: Seq<char>, c2: int) -> bool {
    &&& 0 <= c2 <= b2.len()
    &&& b2 == b
    &&& match m {
        Motion::PrevChar => if c == 0 {
            c2 == 0
        } else {
            0 <= c2 < c
        },
        Motion::NextChar => if c == b.len() {
            c2 == c
        } else {
            c < c2 <= b.len()
        },
        Motion::PrevWord => if c == 0 {
            c2 == 0
        } else {
            0 <= c2 < c
        },
        Motion::NextWord => if c == b.len() {
            c2 == c
        } else {
            c < c2 <= b.len()
        },
        Motion::Start => c2 == 0,
        Motion::End => c2 == b.len(),
    }
}

/// How a deletion changes the buffer. Deletions toward the start remove the
/// codepoints between the new and the old cursor; deletions toward the end
/// remove a nonempty span after an unmoved cursor; line and till-end
/// deletions are exact.
pub open spec fn deletion_ok(b: Seq<char>, c: int, d: Deletion, b2: Seq<char>, c2: int) -> bool {
    &&& 0 <= c2 <= b2.len()
    &&& match d {
        Deletion::PrevChar | Deletion::PrevWord => if c == 0 {
            b2 == b && c2 == 0
        } else {
            &&& 0 <= c2 < c
            &&& b2 == b.subrange(0, c2) + b.subrange(c, b.len() as int)
        },
        Deletion::NextChar | Deletion::NextWord => {
            &&& c2 == c
            &&& if c == b.len() {
                b2 == b
            } else {
                let k = b.len() - b2.len();
                &&& 1 <= k <= b.len() - c
                &&& b2 == b.subrange(0, c) + b.subrange(c + k, b.len() as int)
            }
        },
        Deletion::Line => b2 == Seq::<char>::empty() && c2 == 0,
        Deletion::TillEnd => b2 == b.subrange(0, c) && c2 == c,
    }
}

/// How yanking changes the buffer: some text (the kill buffer's contents,
/// possibly empty) is inserted at the cursor, and the cursor steps past it.
pub open spec fn yank_ok(b: Seq<char>, c: int, b2: Seq<char>, c2: int) -> bool {
    &&& 0 <= c2 <= b2.len()
    &&& c <= c2
    &&& b2.len() - b.len() == c2 - c
    &&& b2.subrange(0, c) == b.subrange(0, c)
    &&& b2.subrange(c2, b2.len() as int) == b.subrange(c, b.len() as int)
}

/// How one edit request changes the buffer.
pub open spec fn edit_ok(b: Seq<char>, c: int, e: Edit, b2: Seq<char>, c2: int) -> bool {
    match e {
        Edit::InsertChar(ch) => insert_ok(b, c, ch, b2, c2),
        Edit::Move(m) => motion_ok(b, c, m, b2, c2),
        Edit::Delete(d) => deletion_ok(b, c, d, b2, c2),
        Edit::Yank => yank_ok(b, c, b2, c2),
    }
}

/// Relies on `tui_input::Input::new`: the buffer takes the given text and
/// the cursor sits at its end.
#[verifier::external_body]
pub(crate) fn input_with_text(value: String) -> (i: tui_input::Input)
    ensures
        text_of(i) == value@,
        cursor_of(i) == value@.len(),
{
    tui_input::Input::new(value)
}

/// The buffer's text.
pub fn input_text(i: &tui_input::Input) -> (s: &str)
    ensures
        s@ == text_of(*i),
{
    input_text_inner(i)
}

#[verifier::external_body]
fn input_text_inner(i: &tui_input::Input) -> (s: &str)
    ensures
        s@ == text_of(*i),
{
    i.value()
}

/// The number of codepoints before the buffer's cursor, which never passes
/// the end of the text.
pub fn input_cursor(i: &tui_input::Input) -> (c: usize)
    ensures
        c as int == cursor_of(*i),
        c as int <= text_of(*i).len(),
{
    input_cursor_inner(i)
}

/// Relies on `tui_input::Input::cursor`: returns the number of codepoints
/// before the cursor, which never passes the end of the text.
#[verifier::external_body]
fn input_cursor_inner(i: &tui_input::Input) -> (c: usize)
    ensures
        c as int == cursor_of(*i),
        c as int <= text_of(*i).len(),
{
    i.cursor()
}

/// Relies on `tui_input::Input::handle` with an insert request: the
/// character lands at the cursor.
#[verifier::external_body]
fn apply_insert(i: &mut tui_input::Input, ch: char)
    ensures
        insert_ok(text_of(*old(i)), cursor_of(*old(i)), ch, text_of(*final(i)), cursor_of(*final(i))),
{
    i.handle(tui_input::InputRequest::InsertChar(ch));
}

/// Relies on `tui_input::Input::handle` with a motion request: the cursor
/// moves as `motion_ok` states and the text stays.
#[verifier::external_body]
fn apply_motion(i: &mut tui_input::Input, m: Motion)
    ensures
        motion_ok(text_of(*old(i)), cursor_of(*old(i)), m, text_of(*final(i)), cursor_of(*final(i))),
{
    let req = match m {
        Motion::PrevChar => tui_input::InputRequest::GoToPrevChar,
        Motion::NextChar => tui_input::InputRequest::GoToNextChar,
        Motion::PrevWord => tui_input::InputRequest::GoToPrevWord,
        Motion::NextWord => tui_input::InputRequest::GoToNextWord,
        Motion::Start => tui_input::InputRequest::GoToStart,
        Motion::End => tui_input::InputRequest::GoToEnd,
    };
    i.handle(req);
}

/// Relies on `tui_input::Input::handle` with a delete request: the buffer
/// shrinks as `deletion_ok` states.
#[verifier::external_body]
fn apply_delete(i: &mut tui_input::Input, d: Deletion)
    ensures
        deletion_ok(text_of(*old(i)), cursor_of(*old(i)), d, text_of(*final(i)), cursor_of(*final(i))),
{
    let req = match d {
        Deletion::PrevChar => tui_input::InputRequest::DeletePrevChar,
        Deletion::NextChar => tui_input::InputRequest::DeleteNextChar,
        Deletion::PrevWord => tui_input::InputRequest::DeletePrevWord,
        Deletion::NextWord => tui_input::InputRequest::DeleteNextWord,
        Deletion::Line => tui_input::InputRequest::DeleteLine,
        Deletion::TillEnd => tui_input::InputRequest::DeleteTillEnd,
    };
    i.handle(req);
}

/// Relies on `tui_input::Input::handle` with a yank request: the kill
/// buffer's text is inserted at the cursor.
#[verifier::external_body]
fn apply_yank(i: &mut tui_input::Input)
    ensures
        yank_ok(text_of(*old(i)), cursor_of(*old(i)), text_of(*final(i)), cursor_of(*final(i))),
{
    i.handle(tui_input::InputRequest::Yank);
}

/// Routes one edit request to the buffer.
pub fn apply_edit(i: &mut tui_input::Input, e: &Edit)
    ensures
        edit_ok(text_of(*old(i)), cursor_of(*old(i)), *e, text_of(*final(i)), cursor_of(*final(i))),
{
    match e {
        Edit::InsertChar(ch) => apply_insert(i, *ch),
        Edit::Move(m) => apply_motion(i, *m),
        Edit::Delete(d) => apply_delete(i, *d),
        Edit::Yank => apply_yank(i),
    }
}

/// The routing table from a keystroke to an edit request, for press-class
/// events that the state machine has not already intercepted. Plain and
/// shifted characters (and AltGr characters, delivered as control+alt)
/// insert themselves; the rest are the usual line-editing bindings.
pub open spec fn key_edit_spec(k: KeyEvent) -> Option<Edit> {
    if (k.code == KeyCode::Backspace && k.plain()) || (k.code == KeyCode::Char('h')
        && k.ctrl_only()) {
        Some(Edit::Delete(Deletion::PrevChar))
    } else if k.code == KeyCode::Delete && k.plain() {
        Some(Edit::Delete(Deletion::NextChar))
    } else if (k.code == KeyCode::Left && k.plain()) || (k.code == KeyCode::Char('b')
        && k.ctrl_only()) {
        Some(Edit::Move(Motion::PrevChar))
    } else if (k.code == KeyCode::Left && k.ctrl_only()) || (k.code == KeyCode::Char('b')
        && k.meta_only()) {
        Some(Edit::Move(Motion::PrevWord))
    } else if (k.code == KeyCode::Right && k.plain()) || (k.code == KeyCode::Char('f')
        && k.ctrl_only()) {
        Some(Edit::Move(Motion::NextChar))
    } else if (k.code == KeyCode::Right && k.ctrl_only()) || (k.code == KeyCode::Char('f')
        && k.meta_only()) {
        Some(Edit::Move(Motion::NextWord))
    } else if k.code == KeyCode::Char('u') && k.ctrl_only() {
        Some(Edit::Delete(Deletion::Line))
    } else if (k.code == KeyCode::Char('w') && k.ctrl_only()) || (k.code == KeyCode::Char('d')
        && k.meta_only()) || (k.code == KeyCode::Backspace && (k.meta_only() || k.alt_only())) {
        Some(Edit::Delete(Deletion::PrevWord))
    } else if k.code == KeyCode::Delete && k.ctrl_only() {
        Some(Edit::Delete(Deletion::NextWord))
    } else if k.code == KeyCode::Char('k') && k.ctrl_only() {
        Some(Edit::Delete(Deletion::TillEnd))
    } else if k.code == KeyCode::Char('y') && k.ctrl_only() {
        Some(Edit::Yank)
    } else if (k.code == KeyCode::Char('a') && k.ctrl_only()) || (k.code == KeyCode::Home
        && k.plain()) {
        Some(Edit::Move(Motion::Start))
    } else if (k.code == KeyCode::Char('e') && k.ctrl_only()) || (k.code == KeyCode::End
        && k.plain()) {
        Some(Edit::Move(Motion::End))
    } else {
        match k.code {
            KeyCode::Char(c) => if k.plain() || k.shift_only() || k.ctrl_alt_only() {
                Some(Edit::InsertChar(c))
            } else {
                None
            },
            _ => None,
        }
    }
}

/// Maps a keystroke to the edit request it stands for, if any.
pub fn key_to_edit(k: &KeyEvent) -> (e: Option<Edit>)
    ensures
        e == key_edit_spec(*k),
{
    let plain = !k.ctrl && !k.alt && !k.shift && !k.meta;
    let ctrl_only = k.ctrl && !k.alt && !k.shift && !k.meta;
    let meta_only = k.meta && !k.ctrl && !k.alt && !k.shift;
    let alt_only = k.alt && !k.ctrl && !k.shift && !k.meta;
    let shift_only = k.shift && !k.ctrl && !k.alt && !k.meta;
    let ctrl_alt_only = k.ctrl && k.alt && !k.shift && !k.meta;
    if (k.code == KeyCode::Backspace && plain) || (k.code == KeyCode::Char('h') && ctrl_only) {
        Some(Edit::Delete(Deletion::PrevChar))
    } else if k.code == KeyCode::Delete && plain {
        Some(Edit::Delete(Deletion::NextChar))
    } else if (k.code == KeyCode::Left && plain) || (k.code == KeyCode::Char('b') && ctrl_only) {
        Some(Edit::Move(Motion::PrevChar))
    } else if (k.code == KeyCode::Left && ctrl_only) || (k.code == KeyCode::Char('b')
        && meta_only) {
        Some(Edit::Move(Motion::PrevWord))
    } else if (k.code == KeyCode::Right && plain) || (k.code == KeyCode::Char('f') && ctrl_only) {
        Some(Edit::Move(Motion::NextChar))
    } else if (k.code == KeyCode::Right && ctrl_only) || (k.code == KeyCode::Char('f')
        && meta_only) {
        Some(Edit::Move(Motion::NextWord))
    } else if k.code == KeyCode::Char('u') && ctrl_only {
        Some(Edit::Delete(Deletion::Line))
    } else if (k.code == KeyCode::Char('w') && ctrl_only) || (k.code == KeyCode::Char('d')
        && meta_only) || (k.code == KeyCode::Backspace && (meta_only || alt_only)) {
        Some(Edit::Delete(Deletion::PrevWord))
    } else if k.code == KeyCode::Delete && ctrl_only {
        Some(Edit::Delete(Deletion::NextWord))
    } else if k.code == KeyCode::Char('k') && ctrl_only {
        Some(Edit::Delete(Deletion::TillEnd))
    } else if k.code == KeyCode::Char('y') && ctrl_only {
        Some(Edit::Yank)
    } else if (k.code == KeyCode::Char('a') && ctrl_only) || (k.code == KeyCode::Home && plain) {
        Some(Edit::Move(Motion::Start))
    } else if (k.code == KeyCode::Char('e') && ctrl_only) || (k.code == KeyCode::End && plain) {
        Some(Edit::Move(Motion::End))
    } else {
        match k.code {
            KeyCode::Char(c) => if plain || shift_only || ctrl_alt_only {
                Some(Edit::InsertChar(c))
            } else {
                None
            },
            _ => None,
        }
    }
}

} // verus!
