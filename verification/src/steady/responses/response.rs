//! The acknowledgment that the ground station sends after a start command.

use vstd::prelude::*;
use crate::steady::decimal::{parse_u8_text, read_u8_text};
use crate::steady::error::SteadyError;
use crate::steady::text::{chars_of, has_prefix, starts_with};

verus! {

/// The acknowledgment of a start command.
#[derive(Debug, PartialEq, Eq, Clone, Copy)]
pub struct SteadyReply {
    pub firmware_id: u8,
}

/// The text that an acknowledgment begins with, `Gstartok`.
pub open spec fn reply_prefix() -> Seq<char> {
    seq!['G', 's', 't', 'a', 'r', 't', 'o', 'k']
}

/// The firmware id that the acknowledgment `text` carries: what follows the
/// prefix, as an unsigned decimal of 8 bits. `None` where `text` is no
/// acknowledgment.
pub open spec fn parse_reply(text: Seq<char>) -> Option<u8> {
    if starts_with(text, reply_prefix()) {
        parse_u8_text(text.skip(reply_prefix().len() as int))
    } else {
        None
    }
}

impl SteadyReply {
    /// Parses an acknowledgment: `Gstartok`, then the firmware id in decimal.
    pub fn from_str(input: &str) -> (r: Result<SteadyReply, SteadyError>)
        ensures
            match parse_reply(input@) {
                Some(id) => r == Ok::<SteadyReply, SteadyError>(SteadyReply { firmware_id: id }),
                None => r == Err::<SteadyReply, SteadyError>(SteadyError::InvalidReply),
            },
    {
        let v: Vec<char> = chars_of(input);
        let prefix: Vec<char> = vec!['G', 's', 't', 'a', 'r', 't', 'o', 'k'];
        proof {
            assert(prefix@ =~= reply_prefix());
            assert(v@.subrange(0, v.len() as int) =~= v@);
        }
        if !has_prefix(&v, 0, v.len(), &prefix) {
            return Err(SteadyError::InvalidReply);
        }
        proof {
            assert(v@.skip(8) =~= v@.subrange(8, v.len() as int));
        }
        match read_u8_text(&v, 8, v.len()) {
            Some(firmware_id) => Ok(SteadyReply { firmware_id }),
            None => Err(SteadyError::InvalidReply),
        }
    }
}

} // verus!
