//! What every uplink command offers: its wire text, and the way back.

use vstd::prelude::*;
use crate::steady::error::{outcome_view, SteadyError, SteadyErrorView};

verus! {

/// A command that is sent to the ground station as one line of text.
pub trait Command: Sized + View {
    /// The line that stands for the command `command`.
    spec fn wire_text(command: Self::V) -> Seq<char>;

    /// The command that the line `text` stands for, or why it stands for none.
    spec fn decoded(text: Seq<char>) -> Result<Self::V, SteadyErrorView>;

    /// Encodes the command as its line.
    fn to_string(&self) -> (text: String)
        ensures
            text@ == Self::wire_text(self@),
    ;

    /// Decodes a line; what does not have the command's exact shape is refused.
    fn from_string(command_str: &str) -> (r: Result<Self, SteadyError>)
        ensures
            outcome_view(r) == Self::decoded(command_str@),
    ;
}

} // verus!
