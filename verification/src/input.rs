//! Keystroke dispatch: the mapping from key events to buffer operations,
//! and the two-state editor session that a save or an escape terminates.

use vstd::prelude::*;
use crate::buffer::Buffer;
use crate::buffer::BufferModel;
use crate::buffer::spec_delete_before;
use crate::buffer::spec_insert_char;
use crate::buffer::spec_move_down;
use crate::buffer::spec_move_left;
use crate::buffer::spec_move_right;
use crate::buffer::spec_move_up;
use crate::buffer::spec_split_line;

verus! {

/// The code of a key event, as the editor distinguishes them. `Other`
/// stands for every key the editor ignores.
#[derive(Clone, Copy, Debug, PartialEq, Eq, Structural)]
pub enum Key {
    Up,
    Down,
    Left,
    Right,
    Enter,
    Backspace,
    Esc,
    Char(char),
    Other,
}

/// One key event: its code, whether the control modifier was held, and
/// whether this is the press phase. Only presses act, so platforms that
/// also report releases cause no duplicate effects.
#[derive(Clone, Copy, Debug, PartialEq, Eq, Structural)]
pub struct KeyInput {
    pub key: Key,
    pub ctrl: bool,
    pub press: bool,
}

/// What the edit loop does after dispatching one key event.
#[derive(Clone, Copy, Debug, PartialEq, Eq, Structural)]
pub enum Outcome {
    /// The buffer may have changed: redraw the screen and go on.
    Redraw,
    /// The event is ignored: no redraw is called for.
    Ignore,
    /// The save command: persist the buffer, then leave the loop.
    SaveAndQuit,
    /// Escape: leave the loop without saving.
    Quit,
}

/// Whether the event is the save command: the control modifier together
/// with the character `s`.
pub open spec fn is_save(k: KeyInput) -> bool {
    k.key == Key::Char('s') && k.ctrl
}

/// The buffer state after one key event: the corresponding buffer
/// operation for an edit or movement key, the unchanged buffer for
/// everything else (releases, the save command, escape, ignored keys).
pub open spec fn spec_apply(m: BufferModel, k: KeyInput) -> BufferModel {
    if !k.press {
        m
    } else {
        match k.key {
            Key::Up => spec_move_up(m),
            Key::Down => spec_move_down(m),
            Key::Left => spec_move_left(m),
            Key::Right => spec_move_right(m),
            Key::Enter => spec_split_line(m),
            Key::Backspace => spec_delete_before(m),
            Key::Char(c) => if is_save(k) {
                m
            } else {
                spec_insert_char(m, c)
            },
            Key::Esc => m,
            Key::Other => m,
        }
    }
}

/// The outcome one key event produces, independent of the buffer: edits
/// and movements redraw, the save command saves and quits, escape quits,
/// releases and unknown keys are ignored.
pub open spec fn spec_outcome(k: KeyInput) -> Outcome {
    if !k.press {
        Outcome::Ignore
    } else {
        match k.key {
            Key::Up => Outcome::Redraw,
            Key::Down => Outcome::Redraw,
            Key::Left => Outcome::Redraw,
            Key::Right => Outcome::Redraw,
            Key::Enter => Outcome::Redraw,
            Key::Backspace => Outcome::Redraw,
            Key::Char(_) => if is_save(k) {
                Outcome::SaveAndQuit
            } else {
                Outcome::Redraw
            },
            Key::Esc => Outcome::Quit,
            Key::Other => Outcome::Ignore,
        }
    }
}

/// Whether dispatching `k` on a buffer modeled by `m` inserts a character
/// into a line that is already as long as the machine can index: the one
/// event dispatch cannot accept.
pub open spec fn insert_would_overflow(m: BufferModel, k: KeyInput) -> bool {
    &&& k.press
    &&& k.key matches Key::Char(_)
    &&& !is_save(k)
    &&& m.lines[m.line].len() >= usize::MAX
}

/// Apply one key event to the buffer and report what the edit loop should
/// do next, following the editor's dispatch table.
pub fn dispatch(b: &mut Buffer, k: KeyInput) -> (o: Outcome)
    requires
        old(b).wf(),
        !insert_would_overflow(old(b)@, k),
    ensures
        final(b).wf(),
        final(b)@ == spec_apply(old(b)@, k),
        o == spec_outcome(k),
{
    if !k.press {
        return Outcome::Ignore;
    }
    match k.key {
        Key::Up => {
            b.move_up();
            Outcome::Redraw
        },
        Key::Down => {
            b.move_down();
            Outcome::Redraw
        },
        Key::Left => {
            b.move_left();
            Outcome::Redraw
        },
        Key::Right => {
            b.move_right();
            Outcome::Redraw
        },
        Key::Enter => {
            b.split_line();
            Outcome::Redraw
        },
        Key::Backspace => {
            b.delete_before_cursor();
            Outcome::Redraw
        },
        Key::Char(c) => {
            if c == 's' && k.ctrl {
                Outcome::SaveAndQuit
            } else {
                b.insert_char(c);
                Outcome::Redraw
            }
        },
        Key::Esc => Outcome::Quit,
        Key::Other => Outcome::Ignore,
    }
}

/// The two states of an editing session.
#[derive(Clone, Copy, Debug, PartialEq, Eq, Structural)]
pub enum EditState {
    /// Key events are dispatched to the buffer.
    Editing,
    /// A save or an escape ended the session; nothing changes any more.
    Terminated,
}

/// The session state after one key event: a save command or an escape
/// terminates an editing session, everything else keeps it editing, and a
/// terminated session never leaves that state.
pub open spec fn spec_next_state(s: EditState, k: KeyInput) -> EditState {
    if s == EditState::Terminated {
        EditState::Terminated
    } else if spec_outcome(k) == Outcome::SaveAndQuit || spec_outcome(k) == Outcome::Quit {
        EditState::Terminated
    } else {
        EditState::Editing
    }
}

/// An editing session: the buffer under edit and whether the session has
/// ended.
pub struct Editor {
    buffer: Buffer,
    state: EditState,
}

impl Editor {
    /// Whether the session's buffer satisfies the buffer invariant.
    pub closed spec fn wf(&self) -> bool {
        self.buffer.wf()
    }

    /// The buffer's model.
    pub closed spec fn model(&self) -> BufferModel {
        self.buffer@
    }

    /// The session's state.
    pub closed spec fn spec_state(&self) -> EditState {
        self.state
    }

    /// Start an editing session over the given buffer.
    pub fn start(buffer: Buffer) -> (e: Editor)
        requires
            buffer.wf(),
        ensures
            e.wf(),
            e.model() == buffer@,
            e.spec_state() == EditState::Editing,
    {
        Editor { buffer, state: EditState::Editing }
    }

    /// The buffer under edit.
    pub fn buffer(&self) -> (b: &Buffer)
        ensures
            b@ == self.model(),
    {
        &self.buffer
    }

    /// Whether the session is still editing.
    pub fn is_editing(&self) -> (r: bool)
        ensures
            r == (self.spec_state() == EditState::Editing),
    {
        match self.state {
            EditState::Editing => true,
            EditState::Terminated => false,
        }
    }

    /// Feed one key event into the session: while editing it is dispatched
    /// to the buffer and a save or an escape terminates the session; after
    /// termination every event is ignored and nothing changes.
    pub fn handle(&mut self, k: KeyInput) -> (o: Outcome)
        requires
            old(self).wf(),
            old(self).spec_state() == EditState::Editing ==> !insert_would_overflow(
                old(self).model(),
                k,
            ),
        ensures
            final(self).wf(),
            final(self).spec_state() == spec_next_state(old(self).spec_state(), k),
            old(self).spec_state() == EditState::Editing ==> final(self).model() == spec_apply(
                old(self).model(),
                k,
            ) && o == spec_outcome(k),
            old(self).spec_state() == EditState::Terminated ==> final(self).model() == old(
                self,
            ).model() && o == Outcome::Ignore,
    {
        match self.state {
            EditState::Terminated => Outcome::Ignore,
            EditState::Editing => {
                let o = dispatch(&mut self.buffer, k);
                match o {
                    Outcome::SaveAndQuit => {
                        self.state = EditState::Terminated;
                    },
                    Outcome::Quit => {
                        self.state = EditState::Terminated;
                    },
                    _ => {},
                }
                o
            },
        }
    }
}

} // verus!
