//! Mapping of raw key identifiers to the closed set of inputs.

use crate::text::text_is;
use vstd::prelude::*;

verus! {

/// What a key press means to the scenes.
#[derive(Clone, Copy, Debug, PartialEq, Eq, Structural)]
pub enum Input {
    Enter,
    Cancel,
    Context,
    ArrowRight,
    ArrowLeft,
    ArrowUp,
    ArrowDown,
    NoInput,
}

/// The input that a raw key identifier stands for. The cancel key is `z`;
/// every key without a meaning maps to `Input::NoInput`.
pub open spec fn input_of_key(key: Seq<char>) -> Input {
    if key == "a"@ {
        Input::Enter
    } else if key == "z"@ {
        Input::Cancel
    } else if key == "ArrowRight"@ {
        Input::ArrowRight
    } else if key == "ArrowLeft"@ {
        Input::ArrowLeft
    } else if key == "ArrowUp"@ {
        Input::ArrowUp
    } else if key == "ArrowDown"@ {
        Input::ArrowDown
    } else {
        Input::NoInput
    }
}

impl Input {
    /// Maps a raw key identifier to its input. Total: unknown keys give
    /// `Input::NoInput`.
    pub fn from(key: String) -> (input: Input)
        ensures
            input == input_of_key(key@),
    {
        if text_is(&key, "a") {
            Input::Enter
        } else if text_is(&key, "z") {
            Input::Cancel
        } else if text_is(&key, "ArrowRight") {
            Input::ArrowRight
        } else if text_is(&key, "ArrowLeft") {
            Input::ArrowLeft
        } else if text_is(&key, "ArrowUp") {
            Input::ArrowUp
        } else if text_is(&key, "ArrowDown") {
            Input::ArrowDown
        } else {
            Input::NoInput
        }
    }

    /// Whether the input is one of the four arrows.
    pub fn is_arrow(&self) -> (arrow: bool)
        ensures
            arrow == self.spec_is_arrow(),
    {
        match self {
            Input::ArrowRight | Input::ArrowLeft | Input::ArrowUp | Input::ArrowDown => true,
            _ => false,
        }
    }

    pub open spec fn spec_is_arrow(&self) -> bool {
        *self == Input::ArrowRight || *self == Input::ArrowLeft || *self == Input::ArrowUp
            || *self == Input::ArrowDown
    }
}

} // verus!
