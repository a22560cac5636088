//! The arm command.

use vstd::prelude::*;
use crate::steady::commands::command::Command;
use crate::steady::error::{outcome_view, CommandFault, SteadyError, SteadyErrorView};
use crate::steady::text::same_text;

verus! {

/// Arms the flight computer.
#[derive(Debug, PartialEq, Eq, Clone, Copy)]
pub struct ArmCommand {}

/// The line that an arm command is written as, `startf` and a newline.
pub open spec fn arm_text() -> Seq<char> {
    seq!['s', 't', 'a', 'r', 't', 'f', '\n']
}

/// The line that is read as an arm command, `arm` and a newline.
pub open spec fn arm_literal() -> Seq<char> {
    seq!['a', 'r', 'm', '\n']
}

/// What decoding `text` as an arm command gives.
pub open spec fn parse_arm(text: Seq<char>) -> Result<ArmCommand, SteadyErrorView> {
    if text == arm_literal() {
        Ok(ArmCommand {  })
    } else {
        Err(SteadyErrorView::InvalidCommandFormat(CommandFault::UnexpectedText))
    }
}

impl View for ArmCommand {
    type V = ArmCommand;

    open spec fn view(&self) -> ArmCommand {
        *self
    }
}

impl ArmCommand {
    pub fn new() -> (command: ArmCommand) {
        ArmCommand {  }
    }
}

impl Command for ArmCommand {
    open spec fn wire_text(command: ArmCommand) -> Seq<char> {
        arm_text()
    }

    open spec fn decoded(text: Seq<char>) -> Result<ArmCommand, SteadyErrorView> {
        parse_arm(text)
    }

    /// Writes the line `startf`, which is not the line that `from_string` reads.
    fn to_string(&self) -> (text: String)
        ensures
            text@ == arm_text(),
    {
        proof {
            reveal_strlit("startf\n");
        }
        let text: String = "startf\n".to_owned();
        assert(text@ =~= arm_text());
        text
    }

    /// Accepts the line `arm` and nothing else.
    fn from_string(command: &str) -> (r: Result<ArmCommand, SteadyError>)
        ensures
            outcome_view(r) == parse_arm(command@),
            r is Ok <==> command@ == arm_literal(),
            r matches Err(error) ==> error == SteadyError::InvalidCommandFormat(
                CommandFault::UnexpectedText,
            ),
    {
        proof {
            reveal_strlit("arm\n");
            assert("arm\n"@ =~= arm_literal());
        }
        if !same_text(command, "arm\n") {
            return Err(SteadyError::InvalidCommandFormat(CommandFault::UnexpectedText));
        }
        Ok(ArmCommand {  })
    }
}

/// The line that an arm command is written as is not read back as one: the
/// two texts differ.
pub proof fn lemma_arm_text_is_refused()
    ensures
        parse_arm(arm_text()) is Err,
        parse_arm(arm_literal()) is Ok,
{
    assert(arm_text().len() != arm_literal().len());
}

} // verus!
