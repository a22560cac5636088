//! The errors that the codec reports.

use vstd::prelude::*;
use crate::steady::decimal::{append_decimal, decimal_digits};

verus! {

/// Why a command was refused.
#[derive(Debug, Clone, Copy, PartialEq, Eq)]
pub enum CommandFault {
    /// The text does not begin with the command's keyword, or is not the
    /// command's literal.
    UnexpectedText,
    /// Nothing follows the keyword.
    MissingBand,
    /// The character after the keyword is not a digit.
    BandNotDigit,
    /// The band's number is neither that of US nor that of EU.
    UnknownBand(u8),
    /// The band's name is neither `US` nor `EU`.
    UnknownBandName,
    /// The two characters after the band are not two digits.
    BadChannel,
    /// The text does not end with a newline.
    MissingNewline,
    /// The channel is above the highest one.
    ChannelOutOfRange,
    /// The device is not the supported one.
    UnknownDevice,
}

/// An error of the codec.
#[derive(Debug, PartialEq, Eq)]
pub enum SteadyError {
    /// The payload does not begin with the marker of a binary packet.
    UnsupportedFraming,
    /// The line holds no `|`, so no metadata.
    MissingMetadataSection,
    /// A metadata token lacks its prefix or its number; the token is cited.
    MalformedMetadata(String),
    /// The payload is shorter than the fixed layout.
    PacketTooShort,
    /// The payload ends before the value of its rolling message.
    PacketTooShortForVariant,
    /// The command was refused, for the reason given.
    InvalidCommandFormat(CommandFault),
    /// The text is no acknowledgment.
    InvalidReply,
}

/// A `SteadyError` with its text as a sequence of characters.
pub enum SteadyErrorView {
    UnsupportedFraming,
    MissingMetadataSection,
    MalformedMetadata(Seq<char>),
    PacketTooShort,
    PacketTooShortForVariant,
    InvalidCommandFormat(CommandFault),
    InvalidReply,
}

impl Clone for SteadyError {
    fn clone(&self) -> (copy: SteadyError)
        ensures
            copy == *self,
    {
        match self {
            SteadyError::UnsupportedFraming => SteadyError::UnsupportedFraming,
            SteadyError::MissingMetadataSection => SteadyError::MissingMetadataSection,
            SteadyError::MalformedMetadata(token) => SteadyError::MalformedMetadata(token.clone()),
            SteadyError::PacketTooShort => SteadyError::PacketTooShort,
            SteadyError::PacketTooShortForVariant => SteadyError::PacketTooShortForVariant,
            SteadyError::InvalidCommandFormat(fault) => SteadyError::InvalidCommandFormat(*fault),
            SteadyError::InvalidReply => SteadyError::InvalidReply,
        }
    }
}

impl View for SteadyError {
    type V = SteadyErrorView;

    open spec fn view(&self) -> SteadyErrorView {
        match *self {
            SteadyError::UnsupportedFraming => SteadyErrorView::UnsupportedFraming,
            SteadyError::MissingMetadataSection => SteadyErrorView::MissingMetadataSection,
            SteadyError::MalformedMetadata(token) => SteadyErrorView::MalformedMetadata(token@),
            SteadyError::PacketTooShort => SteadyErrorView::PacketTooShort,
            SteadyError::PacketTooShortForVariant => SteadyErrorView::PacketTooShortForVariant,
            SteadyError::InvalidCommandFormat(fault) => SteadyErrorView::InvalidCommandFormat(
                fault,
            ),
            SteadyError::InvalidReply => SteadyErrorView::InvalidReply,
        }
    }
}

/// A result with its error as a `SteadyErrorView`.
pub open spec fn outcome<T>(r: Result<T, SteadyError>) -> Result<T, SteadyErrorView> {
    match r {
        Ok(value) => Ok(value),
        Err(error) => Err(error@),
    }
}

/// A result with its value and its error as their views.
pub open spec fn outcome_view<T: View>(r: Result<T, SteadyError>) -> Result<
    T::V,
    SteadyErrorView,
> {
    match r {
        Ok(value) => Ok(value@),
        Err(error) => Err(error@),
    }
}

impl CommandFault {
    /// The words that describe the fault.
    pub open spec fn text(self) -> Seq<char> {
        match self {
            CommandFault::UnexpectedText => "invalid command format: unexpected text"@,
            CommandFault::MissingBand => "missing band value"@,
            CommandFault::BandNotDigit => "invalid band character"@,
            CommandFault::UnknownBand(code) => "invalid band value: "@ + decimal_digits(
                code as nat,
            ),
            CommandFault::UnknownBandName => "invalid band string"@,
            CommandFault::BadChannel => "invalid channel format"@,
            CommandFault::MissingNewline => "missing newline at the end of the command"@,
            CommandFault::ChannelOutOfRange => "channel value out of range"@,
            CommandFault::UnknownDevice => "invalid device name"@,
        }
    }

    /// Describes the fault in words.
    pub fn message(&self) -> (text: String)
        ensures
            text@ == self.text(),
    {
        match self {
            CommandFault::UnexpectedText => "invalid command format: unexpected text".to_owned(),
            CommandFault::MissingBand => "missing band value".to_owned(),
            CommandFault::BandNotDigit => "invalid band character".to_owned(),
            CommandFault::UnknownBand(code) => {
                let mut text: String = "invalid band value: ".to_owned();
                append_decimal(&mut text, *code as u16);
                text
            },
            CommandFault::UnknownBandName => "invalid band string".to_owned(),
            CommandFault::BadChannel => "invalid channel format".to_owned(),
            CommandFault::MissingNewline => "missing newline at the end of the command".to_owned(),
            CommandFault::ChannelOutOfRange => "channel value out of range".to_owned(),
            CommandFault::UnknownDevice => "invalid device name".to_owned(),
        }
    }
}

impl SteadyErrorView {
    /// The words that describe the error.
    pub open spec fn text(self) -> Seq<char> {
        match self {
            SteadyErrorView::UnsupportedFraming => "unsupported framing: no binary packet"@,
            SteadyErrorView::MissingMetadataSection => "missing metadata section"@,
            SteadyErrorView::MalformedMetadata(token) => "malformed metadata token: "@ + token,
            SteadyErrorView::PacketTooShort => "packet too short"@,
            SteadyErrorView::PacketTooShortForVariant => {
                "packet too short for its rolling message"@
            },
            SteadyErrorView::InvalidCommandFormat(fault) => fault.text(),
            SteadyErrorView::InvalidReply => "invalid reply"@,
        }
    }
}

impl SteadyError {
    /// Describes the error in words.
    pub fn message(&self) -> (text: String)
        ensures
            text@ == self@.text(),
    {
        match self {
            SteadyError::UnsupportedFraming => {
                "unsupported framing: no binary packet".to_owned()
            },
            SteadyError::MissingMetadataSection => "missing metadata section".to_owned(),
            SteadyError::MalformedMetadata(token) => {
                let mut text: String = "malformed metadata token: ".to_owned();
                text.append(token.as_str());
                text
            },
            SteadyError::PacketTooShort => "packet too short".to_owned(),
            SteadyError::PacketTooShortForVariant => {
                "packet too short for its rolling message".to_owned()
            },
            SteadyError::InvalidCommandFormat(fault) => fault.message(),
            SteadyError::InvalidReply => "invalid reply".to_owned(),
        }
    }
}

} // verus!
