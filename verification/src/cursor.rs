//! The cursor that marks one entry of a list or of a grid of choices.

use crate::input::Input;
use vstd::prelude::*;

verus! {

/// A cursor over `choice_length` entries, laid out in rows of `x_length`
/// entries. `step_length` is the distance between two entries on screen.
#[derive(Clone, Copy, Debug, PartialEq, Eq, Structural)]
pub struct Cursor {
    pub chose_index: usize,
    pub choice_length: usize,
    pub x_length: usize,
    pub y_length: usize,
    pub step_length: u32,
}

/// Entries that an input moves the cursor forward by, once the way back is
/// counted as the way forward around the list: in a list, down is one
/// entry on and up one entry back; in a grid, right and left are one entry
/// on and back, down and up one row on and back. `None` for an input that
/// does not move the cursor.
pub open spec fn forward_steps(cursor: Cursor, input: Input) -> Option<int> {
    let length = cursor.choice_length as int;
    let row = if cursor.x_length > 1 {
        cursor.x_length as int % length
    } else {
        1int % length
    };
    match input {
        Input::ArrowDown => Some(row),
        Input::ArrowUp => Some((length - row) % length),
        Input::ArrowRight => if cursor.x_length > 1 {
            Some(1int % length)
        } else {
            None
        },
        Input::ArrowLeft => if cursor.x_length > 1 {
            Some((length - 1) % length)
        } else {
            None
        },
        _ => None,
    }
}

impl Cursor {
    /// The invariant of a cursor: it marks one of its entries, or stands
    /// at 0 where there is none.
    pub open spec fn wf(self) -> bool {
        if self.choice_length == 0 {
            self.chose_index == 0
        } else {
            self.chose_index < self.choice_length
        }
    }

    /// A cursor at the first of `choice_length` entries of a list.
    pub open spec fn spec_new(choice_length: usize, step_length: u32) -> Cursor {
        Cursor { chose_index: 0, choice_length, x_length: 1, y_length: choice_length, step_length }
    }

    /// The cursor after an input: it moves around its entries and wraps at
    /// the ends; it stays where the input does not move it or where there
    /// is no entry.
    pub open spec fn moved(self, input: Input) -> Cursor {
        if self.choice_length == 0 {
            self
        } else {
            match forward_steps(self, input) {
                Some(steps) => Cursor {
                    chose_index: ((self.chose_index + steps) % (self.choice_length as int)) as usize,
                    ..self
                },
                None => self,
            }
        }
    }

    /// The cursor back at the first entry.
    pub open spec fn at_start(self) -> Cursor {
        Cursor { chose_index: 0, ..self }
    }

    /// The cursor over a list of another length: it stays where it is if
    /// that entry is still there, and returns to the first entry if not.
    pub open spec fn with_length(self, choice_length: usize) -> Cursor {
        Cursor {
            chose_index: if self.chose_index < choice_length {
                self.chose_index
            } else {
                0
            },
            choice_length,
            ..self
        }
    }

    /// The cursor over a grid with rows of `x_length` entries.
    pub open spec fn with_box(self, x_length: usize, y_length: usize) -> Cursor {
        Cursor { x_length, y_length, ..self }
    }

    /// A cursor at the first of `choice_length` entries of a list.
    pub fn new(choice_length: usize, step_length: u32) -> (cursor: Cursor)
        ensures
            cursor == Cursor::spec_new(choice_length, step_length),
            cursor.wf(),
    {
        Cursor { chose_index: 0, choice_length, x_length: 1, y_length: choice_length, step_length }
    }

    /// Moves the cursor as the input asks.
    pub fn consume(&mut self, input: Input)
        requires
            old(self).wf(),
        ensures
            *final(self) == old(self).moved(input),
            final(self).wf(),
    {
        let length = self.choice_length;
        if length == 0 {
            return ;
        }
        let row: usize = if self.x_length > 1 {
            self.x_length % length
        } else {
            1 % length
        };
        let steps: usize = match input {
            Input::ArrowDown => row,
            Input::ArrowUp => (length - row) % length,
            Input::ArrowRight => {
                if self.x_length > 1 {
                    1 % length
                } else {
                    return ;
                }
            },
            Input::ArrowLeft => {
                if self.x_length > 1 {
                    (length - 1) % length
                } else {
                    return ;
                }
            },
            _ => {
                return ;
            },
        };
        let room = length - self.chose_index;
        let ghost target = (self.chose_index + steps) % (length as int);
        if steps >= room {
            assert(target == self.chose_index + steps - length) by {
                vstd::arithmetic::div_mod::lemma_fundamental_div_mod_converse(
                    self.chose_index + steps,
                    length as int,
                    1,
                    self.chose_index + steps - length,
                );
            }
            self.chose_index = steps - room;
        } else {
            assert(target == self.chose_index + steps) by {
                vstd::arithmetic::div_mod::lemma_small_mod(
                    (self.chose_index + steps) as nat,
                    length as nat,
                );
            }
            self.chose_index = self.chose_index + steps;
        }
    }

    /// Returns the cursor to the first entry.
    pub fn reset(&mut self)
        ensures
            *final(self) == old(self).at_start(),
            final(self).wf(),
    {
        self.chose_index = 0;
    }

    /// Tells the cursor how many entries there are.
    pub fn update_choice_length(&mut self, choice_length: usize)
        ensures
            *final(self) == old(self).with_length(choice_length),
            final(self).wf(),
    {
        if self.chose_index >= choice_length {
            self.chose_index = 0;
        }
        self.choice_length = choice_length;
    }

    /// Lays the entries out in rows of `x_length`.
    pub fn set_box_length(&mut self, x_length: usize, y_length: usize)
        ensures
            *final(self) == old(self).with_box(x_length, y_length),
    {
        self.x_length = x_length;
        self.y_length = y_length;
    }
}

} // verus!
