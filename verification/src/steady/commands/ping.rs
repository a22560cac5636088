//! The ping command.

use vstd::prelude::*;
use crate::steady::commands::command::Command;
use crate::steady::error::{outcome_view, CommandFault, SteadyError, SteadyErrorView};
use crate::steady::text::same_text;

verus! {

/// Asks the ground station whether it is there.
#[derive(Debug, PartialEq, Eq, Clone, Copy)]
pub struct PingCommand {}

/// The line of a ping, `ping` and a newline.
pub open spec fn ping_text() -> Seq<char> {
    seq!['p', 'i', 'n', 'g', '\n']
}

/// What decoding `text` as a ping gives.
pub open spec fn parse_ping(text: Seq<char>) -> Result<PingCommand, SteadyErrorView> {
    if text == ping_text() {
        Ok(PingCommand {  })
    } else {
        Err(SteadyErrorView::InvalidCommandFormat(CommandFault::UnexpectedText))
    }
}

impl View for PingCommand {
    type V = PingCommand;

    open spec fn view(&self) -> PingCommand {
        *self
    }
}

impl PingCommand {
    pub fn new() -> (command: PingCommand) {
        PingCommand {  }
    }
}

impl Command for PingCommand {
    open spec fn wire_text(command: PingCommand) -> Seq<char> {
        ping_text()
    }

    open spec fn decoded(text: Seq<char>) -> Result<PingCommand, SteadyErrorView> {
        parse_ping(text)
    }

    fn to_string(&self) -> (text: String)
        ensures
            text@ == ping_text(),
    {
        proof {
            reveal_strlit("ping\n");
        }
        let text: String = "ping\n".to_owned();
        assert(text@ =~= ping_text());
        text
    }

    /// Accepts the line of a ping and nothing else.
    fn from_string(command: &str) -> (r: Result<PingCommand, SteadyError>)
        ensures
            outcome_view(r) == parse_ping(command@),
            r is Ok <==> command@ == ping_text(),
            r matches Err(error) ==> error == SteadyError::InvalidCommandFormat(
                CommandFault::UnexpectedText,
            ),
    {
        proof {
            reveal_strlit("ping\n");
            assert("ping\n"@ =~= ping_text());
        }
        if !same_text(command, "ping\n") {
            return Err(SteadyError::InvalidCommandFormat(CommandFault::UnexpectedText));
        }
        Ok(PingCommand {  })
    }
}

/// Decoding the line that a ping encodes to gives the ping back, and
/// encoding what a line decodes to gives the line back.
pub proof fn lemma_ping_round_trip(command: PingCommand, text: Seq<char>)
    ensures
        parse_ping(ping_text()) == Ok::<PingCommand, SteadyErrorView>(command),
        parse_ping(text) is Ok ==> ping_text() == text,
{
}

} // verus!
