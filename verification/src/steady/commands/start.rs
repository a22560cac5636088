//! The start command, which connects the ground station to a device on a
//! radio band and channel.

use vstd::prelude::*;
use crate::steady::commands::command::Command;
use crate::steady::decimal::{
    append_zero_padded, decimal_digits, digit_char, digit_of, digit_text, digit_value,
    is_ascii_digit, is_digit, zero_padded,
};
use crate::steady::error::{outcome_view, CommandFault, SteadyError, SteadyErrorView};
use crate::steady::text::{chars_of, has_prefix, same_text, starts_with};

verus! {

/// The regulatory region of the radio band.
#[derive(Debug, PartialEq, Eq, Clone, Copy)]
pub enum Band {
    US,
    EU,
}

/// The highest channel.
pub const MAX_CHANNEL: u16 = 25;

/// The band that the number `code` stands for.
pub open spec fn band_of_code(code: int) -> Option<Band> {
    if code == 0 {
        Some(Band::US)
    } else if code == 1 {
        Some(Band::EU)
    } else {
        None
    }
}

/// The name `US`.
pub open spec fn us_name() -> Seq<char> {
    seq!['U', 'S']
}

/// The name `EU`.
pub open spec fn eu_name() -> Seq<char> {
    seq!['E', 'U']
}

/// The name of the one supported device, `Fluctus`.
pub open spec fn device_name() -> Seq<char> {
    seq!['F', 'l', 'u', 'c', 't', 'u', 's']
}

/// The keyword of the command, `start`.
pub open spec fn start_keyword() -> Seq<char> {
    seq!['s', 't', 'a', 'r', 't']
}

impl Band {
    /// The number that stands for the band: 0 for US, 1 for EU.
    pub open spec fn code(self) -> u8 {
        match self {
            Band::US => 0,
            Band::EU => 1,
        }
    }

    /// The band that `value` stands for.
    pub fn from_u8(value: u8) -> (r: Result<Band, SteadyError>)
        ensures
            match band_of_code(value as int) {
                Some(band) => r == Ok::<Band, SteadyError>(band),
                None => r == Err::<Band, SteadyError>(
                    SteadyError::InvalidCommandFormat(CommandFault::UnknownBand(value)),
                ),
            },
    {
        match value {
            0 => Ok(Band::US),
            1 => Ok(Band::EU),
            _ => Err(SteadyError::InvalidCommandFormat(CommandFault::UnknownBand(value))),
        }
    }

    /// The number that stands for the band.
    pub fn to_u8(&self) -> (code: u8)
        ensures
            code == self.code(),
            band_of_code(code as int) == Some(*self),
    {
        match self {
            Band::US => 0,
            Band::EU => 1,
        }
    }

    /// The band of the name `value`, which is `US` or `EU`.
    pub fn from_str(value: &str) -> (r: Result<Band, SteadyError>)
        ensures
            value@ == us_name() ==> r == Ok::<Band, SteadyError>(Band::US),
            value@ == eu_name() ==> r == Ok::<Band, SteadyError>(Band::EU),
            value@ != us_name() && value@ != eu_name() ==> r == Err::<Band, SteadyError>(
                SteadyError::InvalidCommandFormat(CommandFault::UnknownBandName),
            ),
    {
        proof {
            reveal_strlit("US");
            reveal_strlit("EU");
            assert("US"@ =~= us_name());
            assert("EU"@ =~= eu_name());
        }
        if same_text(value, "US") {
            Ok(Band::US)
        } else if same_text(value, "EU") {
            Ok(Band::EU)
        } else {
            Err(SteadyError::InvalidCommandFormat(CommandFault::UnknownBandName))
        }
    }
}

/// The command that starts a session.
#[derive(Debug, PartialEq, Eq)]
pub struct StartCommand {
    pub band: Band,
    pub chan: u16,
    pub device: String,
}

/// A `StartCommand` with the device's name as a sequence of characters.
pub struct StartCommandView {
    pub band: Band,
    pub chan: u16,
    pub device: Seq<char>,
}

impl View for StartCommand {
    type V = StartCommandView;

    open spec fn view(&self) -> StartCommandView {
        StartCommandView { band: self.band, chan: self.chan, device: self.device@ }
    }
}

impl StartCommandView {
    /// Whether the command passes the constructor: the channel is at most 25
    /// and the device is the supported one.
    pub open spec fn is_valid(self) -> bool {
        self.chan <= MAX_CHANNEL && self.device == device_name()
    }
}

/// What constructing a start command from these parts gives: the channel is
/// checked first, then the device.
pub open spec fn checked_start(band: Band, chan: u16, device: Seq<char>) -> Result<
    StartCommandView,
    SteadyErrorView,
> {
    if chan > MAX_CHANNEL {
        Err(SteadyErrorView::InvalidCommandFormat(CommandFault::ChannelOutOfRange))
    } else if device != device_name() {
        Err(SteadyErrorView::InvalidCommandFormat(CommandFault::UnknownDevice))
    } else {
        Ok(StartCommandView { band, chan, device })
    }
}

/// The line of a start command: the keyword, the band's digit, the channel
/// in two digits or more, the device and a newline.
pub open spec fn start_text(command: StartCommandView) -> Seq<char> {
    start_keyword() + seq![digit_char(command.band.code() as int)] + zero_padded(
        command.chan as nat,
    ) + command.device + seq!['\n']
}

/// What decoding `text` as a start command gives. After the keyword come
/// one digit for the band and two for the channel. What follows must end
/// with a newline, and all of it before that newline is the device. The
/// parts then pass through the constructor's checks.
pub open spec fn parse_start(text: Seq<char>) -> Result<StartCommandView, SteadyErrorView> {
    if !starts_with(text, start_keyword()) {
        Err(SteadyErrorView::InvalidCommandFormat(CommandFault::UnexpectedText))
    } else if text.len() < 6 {
        Err(SteadyErrorView::InvalidCommandFormat(CommandFault::MissingBand))
    } else if !is_digit(text[5]) {
        Err(SteadyErrorView::InvalidCommandFormat(CommandFault::BandNotDigit))
    } else {
        match band_of_code(digit_value(text[5])) {
            None => Err(
                SteadyErrorView::InvalidCommandFormat(
                    CommandFault::UnknownBand(digit_value(text[5]) as u8),
                ),
            ),
            Some(band) => if text.len() < 8 || !is_digit(text[6]) || !is_digit(text[7]) {
                Err(SteadyErrorView::InvalidCommandFormat(CommandFault::BadChannel))
            } else {
                let rest = text.skip(8);
                if rest.len() == 0 || rest.last() != '\n' {
                    Err(SteadyErrorView::InvalidCommandFormat(CommandFault::MissingNewline))
                } else {
                    checked_start(
                        band,
                        (10 * digit_value(text[6]) + digit_value(text[7])) as u16,
                        rest.drop_last(),
                    )
                }
            },
        }
    }
}

impl StartCommand {
    /// Makes a start command. The channel must be at most 25 and the device
    /// must be `Fluctus`; the channel is checked first.
    pub fn new(band: Band, chan: u16, device: String) -> (r: Result<StartCommand, SteadyError>)
        ensures
            outcome_view(r) == checked_start(band, chan, device@),
            r is Ok <==> chan <= 25 && device@ == device_name(),
            r matches Ok(command) ==> command.band == band && command.chan == chan
                && command.device == device && command@.is_valid(),
    {
        if chan > MAX_CHANNEL {
            return Err(SteadyError::InvalidCommandFormat(CommandFault::ChannelOutOfRange));
        }
        proof {
            reveal_strlit("Fluctus");
            assert("Fluctus"@ =~= device_name());
        }
        if !same_text(device.as_str(), "Fluctus") {
            return Err(SteadyError::InvalidCommandFormat(CommandFault::UnknownDevice));
        }
        Ok(StartCommand { band, chan, device })
    }
}

impl Command for StartCommand {
    open spec fn wire_text(command: StartCommandView) -> Seq<char> {
        start_text(command)
    }

    open spec fn decoded(text: Seq<char>) -> Result<StartCommandView, SteadyErrorView> {
        parse_start(text)
    }

    /// Writes the keyword, the band's digit, the channel in two digits (more
    /// for a channel above 99), the device and a newline.
    fn to_string(&self) -> (text: String)
        ensures
            text@ == start_text(self@),
    {
        proof {
            reveal_strlit("start");
            reveal_strlit("\n");
            assert("start"@ =~= start_keyword());
            assert("\n"@ =~= seq!['\n']);
        }
        let mut text: String = "start".to_owned();
        text.append(digit_text(self.band.to_u8() as u16));
        append_zero_padded(&mut text, self.chan);
        text.append(self.device.as_str());
        text.append("\n");
        text
    }

    /// Reads a start command and hands its parts to `new`, which checks the
    /// channel and the device. The text must be the whole line, newline
    /// included, and nothing more.
    fn from_string(command: &str) -> (r: Result<StartCommand, SteadyError>)
        ensures
            outcome_view(r) == parse_start(command@),
            r matches Ok(c) ==> c@.is_valid() && start_text(c@) == command@,
    {
        let v: Vec<char> = chars_of(command);
        let keyword: Vec<char> = vec!['s', 't', 'a', 'r', 't'];
        proof {
            assert(keyword@ =~= start_keyword());
            assert(v@.subrange(0, v.len() as int) =~= v@);
        }
        if !has_prefix(&v, 0, v.len(), &keyword) {
            return Err(SteadyError::InvalidCommandFormat(CommandFault::UnexpectedText));
        }
        if v.len() < 6 {
            return Err(SteadyError::InvalidCommandFormat(CommandFault::MissingBand));
        }
        if !is_ascii_digit(v[5]) {
            return Err(SteadyError::InvalidCommandFormat(CommandFault::BandNotDigit));
        }
        let band: Band = match Band::from_u8(digit_of(v[5]) as u8) {
            Ok(band) => band,
            Err(error) => {
                return Err(error);
            },
        };
        if v.len() < 8 || !is_ascii_digit(v[6]) || !is_ascii_digit(v[7]) {
            return Err(SteadyError::InvalidCommandFormat(CommandFault::BadChannel));
        }
        let chan: u16 = (10 * digit_of(v[6]) + digit_of(v[7])) as u16;
        proof {
            let rest = v@.skip(8);
            if v.len() > 8 {
                assert(rest.last() == v@[v.len() - 1]);
                assert(rest.drop_last() =~= v@.subrange(8, v.len() - 1));
            }
        }
        if v.len() == 8 || v[v.len() - 1] != '\n' {
            return Err(SteadyError::InvalidCommandFormat(CommandFault::MissingNewline));
        }
        let device: String = command.substring_char(8, v.len() - 1).to_owned();
        let r = StartCommand::new(band, chan, device);
        proof {
            if r is Ok {
                lemma_start_encode_decode(command@);
            }
        }
        r
    }
}

/// A channel of at most 99 is written in exactly two digits.
pub proof fn lemma_zero_padded_two_digits(chan: nat)
    requires
        chan <= 99,
    ensures
        zero_padded(chan) == seq![digit_char((chan / 10) as int), digit_char((chan % 10) as int)],
{
    reveal_with_fuel(decimal_digits, 3);
    assert(zero_padded(chan) =~= seq![
        digit_char((chan / 10) as int),
        digit_char((chan % 10) as int),
    ]);
}

/// Decoding the line that a valid start command encodes to gives the
/// command back.
pub proof fn lemma_start_decode_encode(command: StartCommandView)
    requires
        command.is_valid(),
    ensures
        parse_start(start_text(command)) == Ok::<StartCommandView, SteadyErrorView>(command),
{
    let text = start_text(command);
    let chan = command.chan as nat;
    lemma_zero_padded_two_digits(chan);
    assert(text.len() == 16);
    assert(text.take(5) =~= start_keyword());
    assert(text[5] == digit_char(command.band.code() as int));
    assert(text[6] == digit_char((chan / 10) as int));
    assert(text[7] == digit_char((chan % 10) as int));
    let rest = text.skip(8);
    assert(rest =~= device_name() + seq!['\n']);
    assert(rest.drop_last() =~= command.device);
    assert(band_of_code(digit_value(text[5])) == Some(command.band));
    assert(10 * digit_value(text[6]) + digit_value(text[7]) == chan);
}

/// Encoding what a text decodes to gives the text back.
pub proof fn lemma_start_encode_decode(text: Seq<char>)
    requires
        parse_start(text) is Ok,
    ensures
        start_text(parse_start(text)->Ok_0) == text,
{
    let command = parse_start(text)->Ok_0;
    let rest = text.skip(8);
    assert(rest.drop_last() == device_name());
    assert(text.len() == 16);
    assert(text.take(5) == start_keyword());
    lemma_zero_padded_two_digits(command.chan as nat);
    let d6 = digit_value(text[6]);
    let d7 = digit_value(text[7]);
    assert(command.chan == 10 * d6 + d7);
    assert(command.chan as nat / 10 == d6);
    assert(command.chan as nat % 10 == d7);
    assert(digit_char(d6) == text[6]);
    assert(digit_char(d7) == text[7]);
    assert(digit_char(command.band.code() as int) == text[5]);
    assert forall|i: int| 0 <= i < 16 implies start_text(command)[i] == text[i] by {
        if i < 5 {
            assert(text[i] == text.take(5)[i]);
        } else if 8 <= i < 15 {
            assert(text[i] == rest.drop_last()[i - 8]);
        } else if i == 15 {
            assert(text[i] == rest.last());
        }
    }
    assert(start_text(command) =~= text);
}

} // verus!
