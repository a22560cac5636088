//! The telemetry record and its decoder.

use vstd::prelude::*;
use crate::steady::error::{outcome, SteadyError, SteadyErrorView};
use crate::steady::packets::fields::{
    int_16, int_24, int_32, int_8, narrow_16, narrow_i16, read_i16, read_i24, read_i32, read_i8,
    read_u16, uint_16,
};
use crate::steady::packets::framing::{hex_to_bytes, line_hex};
pub use crate::steady::packets::framing::{convert_to_bytes, extract_hexbytes};
pub use crate::steady::packets::metadata::{extract_meta, FluctusPacketMeta};

verus! {

/// The auxiliary value of a packet; its tag byte selects the meaning.
#[derive(Debug, PartialEq, Eq, Clone, Copy)]
pub enum RollingMessage {
    MaxAltitude(i32),
    MaxSpeedVert(i16),
    MaxAccelGlob(i16),
    /// An unrecognized tag, with a placeholder of zeros for its value.
    Unknown(u8, [u8; 3]),
}

/// The phase of the flight.
#[derive(Debug, PartialEq, Eq, Clone, Copy)]
pub enum FlightStatus {
    Idle,
    Armed,
    CountdownEngaged,
    WaitingForLaunch,
    Ascent,
    Descent,
    Touchdown,
    /// A code that stands for no known phase.
    Unknown(u8),
}

/// One telemetry record.
#[derive(Debug, PartialEq, Eq, Clone, Copy)]
pub struct FluctusPacket {
    pub uid: u16,
    pub fw: u16,
    pub rx: u8,
    pub time_mpu: i32,
    pub status: FlightStatus,
    pub altitude: i32,
    pub speed_vert: i16,
    pub accel: i16,
    pub angle: u8,
    pub batt_voltage: i16,
    pub time: i16,
    pub pyro_states: u8,
    pub log_status: i8,
    pub gps_lat: i32,
    pub gps_lng: i32,
    pub gps_state: i8,
    pub warn_code: u8,
    pub rolling_message: RollingMessage,
    pub user_in1: Option<i16>,
    pub user_in2: Option<i16>,
}

/// The length of the fixed layout, tag of the rolling message included.
pub const BASE_LEN: usize = 35;

/// The length of a payload that holds the value of its rolling message.
pub const VARIANT_LEN: usize = 38;

/// The length from which a payload holds the two user inputs.
pub const USER_INPUT_LEN: usize = 42;

/// The tag of a maximal altitude, `A`.
pub const TAG_MAX_ALTITUDE: u8 = 0x41;

/// The tag of a maximal vertical speed, `S`.
pub const TAG_MAX_SPEED_VERT: u8 = 0x53;

/// The tag of a maximal global acceleration, `G`.
pub const TAG_MAX_ACCEL_GLOB: u8 = 0x47;

/// Whether `tag` selects a rolling message that carries a value.
pub open spec fn is_known_tag(tag: u8) -> bool {
    tag == TAG_MAX_ALTITUDE || tag == TAG_MAX_SPEED_VERT || tag == TAG_MAX_ACCEL_GLOB
}

/// The flight phase that `code` stands for.
pub open spec fn flight_status_of(code: u8) -> FlightStatus {
    match code {
        0 => FlightStatus::Idle,
        1 => FlightStatus::Armed,
        2 => FlightStatus::CountdownEngaged,
        3 => FlightStatus::WaitingForLaunch,
        4 => FlightStatus::Ascent,
        5 => FlightStatus::Descent,
        6 => FlightStatus::Touchdown,
        _ => FlightStatus::Unknown(code),
    }
}

/// The rolling message of the payload `b`: for a known tag the 24-bit value
/// at offset 35, for another tag the tag itself and three zero bytes.
pub open spec fn rolling_message_of(b: Seq<u8>) -> RollingMessage {
    let tag = b[34];
    if tag == TAG_MAX_ALTITUDE {
        RollingMessage::MaxAltitude(int_24(b, 35))
    } else if tag == TAG_MAX_SPEED_VERT {
        RollingMessage::MaxSpeedVert(narrow_16(int_24(b, 35) as int))
    } else if tag == TAG_MAX_ACCEL_GLOB {
        RollingMessage::MaxAccelGlob(narrow_16(int_24(b, 35) as int))
    } else {
        RollingMessage::Unknown(tag, [0u8, 0u8, 0u8])
    }
}

/// The record that the payload `b` holds, field by field.
pub open spec fn packet_of(b: Seq<u8>) -> FluctusPacket {
    FluctusPacket {
        uid: uint_16(b, 0),
        fw: uint_16(b, 2),
        rx: b[4],
        time_mpu: int_32(b, 5),
        status: flight_status_of(b[9]),
        altitude: int_24(b, 10),
        speed_vert: int_16(b, 13),
        accel: int_16(b, 15),
        angle: b[17],
        batt_voltage: int_16(b, 18),
        time: int_16(b, 20),
        pyro_states: b[22],
        log_status: int_8(b[23]),
        gps_lat: int_32(b, 24),
        gps_lng: int_32(b, 28),
        gps_state: int_8(b[32]),
        warn_code: b[33],
        rolling_message: rolling_message_of(b),
        user_in1: if b.len() >= USER_INPUT_LEN {
            Some(int_16(b, 38))
        } else {
            None
        },
        user_in2: if b.len() >= USER_INPUT_LEN {
            Some(int_16(b, 40))
        } else {
            None
        },
    }
}

/// What decoding the payload `b` gives: the record, or the reason why `b`
/// is too short to hold one.
pub open spec fn decode_packet(b: Seq<u8>) -> Result<FluctusPacket, SteadyError> {
    if b.len() < BASE_LEN {
        Err(SteadyError::PacketTooShort)
    } else if is_known_tag(b[34]) && b.len() < VARIANT_LEN {
        Err(SteadyError::PacketTooShortForVariant)
    } else {
        Ok(packet_of(b))
    }
}

/// A type that is decoded from raw bytes.
pub trait FromBytes: Sized {
    type Err;

    /// What `from_bytes` returns for `bytes`.
    spec fn decoded(bytes: Seq<u8>) -> Result<Self, Self::Err>;

    fn from_bytes(bytes: &[u8]) -> (r: Result<Self, Self::Err>)
        ensures
            r == Self::decoded(bytes@),
    ;
}

/// Maps a status code to the flight phase.
pub fn flight_status(code: u8) -> (status: FlightStatus)
    ensures
        status == flight_status_of(code),
{
    match code {
        0 => FlightStatus::Idle,
        1 => FlightStatus::Armed,
        2 => FlightStatus::CountdownEngaged,
        3 => FlightStatus::WaitingForLaunch,
        4 => FlightStatus::Ascent,
        5 => FlightStatus::Descent,
        6 => FlightStatus::Touchdown,
        _ => FlightStatus::Unknown(code),
    }
}

impl FromBytes for FluctusPacket {
    type Err = SteadyError;

    open spec fn decoded(bytes: Seq<u8>) -> Result<Self, SteadyError> {
        decode_packet(bytes)
    }

    /// Decodes one payload. Fewer than 35 bytes are too short for the fixed
    /// layout; a known tag needs 38 bytes; the two user inputs are read from
    /// a payload of 42 bytes or more and are absent from a shorter one.
    fn from_bytes(bytes: &[u8]) -> (r: Result<Self, SteadyError>)
        ensures
            r == decode_packet(bytes@),
            bytes.len() < 35 ==> r == Err::<Self, SteadyError>(SteadyError::PacketTooShort),
            35 <= bytes.len() < 38 && is_known_tag(bytes@[34]) ==> r == Err::<Self, SteadyError>(
                SteadyError::PacketTooShortForVariant,
            ),
            r is Ok <==> bytes.len() >= 35 && (is_known_tag(bytes@[34]) ==> bytes.len() >= 38),
            r matches Ok(p) ==> {
                &&& p.user_in1 is Some <==> bytes.len() >= 42
                &&& p.user_in2 is Some <==> bytes.len() >= 42
            },
    {
        if bytes.len() < BASE_LEN {
            return Err(SteadyError::PacketTooShort);
        }
        let tag: u8 = bytes[34];
        let rolling_message = if tag == TAG_MAX_ALTITUDE {
            if bytes.len() < VARIANT_LEN {
                return Err(SteadyError::PacketTooShortForVariant);
            }
            RollingMessage::MaxAltitude(read_i24(bytes, 35))
        } else if tag == TAG_MAX_SPEED_VERT {
            if bytes.len() < VARIANT_LEN {
                return Err(SteadyError::PacketTooShortForVariant);
            }
            RollingMessage::MaxSpeedVert(narrow_i16(read_i24(bytes, 35)))
        } else if tag == TAG_MAX_ACCEL_GLOB {
            if bytes.len() < VARIANT_LEN {
                return Err(SteadyError::PacketTooShortForVariant);
            }
            RollingMessage::MaxAccelGlob(narrow_i16(read_i24(bytes, 35)))
        } else {
            RollingMessage::Unknown(tag, [0, 0, 0])
        };
        let user_in1 = if bytes.len() >= USER_INPUT_LEN {
            Some(read_i16(bytes, 38))
        } else {
            None
        };
        let user_in2 = if bytes.len() >= USER_INPUT_LEN {
            Some(read_i16(bytes, 40))
        } else {
            None
        };
        Ok(
            FluctusPacket {
                uid: read_u16(bytes, 0),
                fw: read_u16(bytes, 2),
                rx: bytes[4],
                time_mpu: read_i32(bytes, 5),
                status: flight_status(bytes[9]),
                altitude: read_i24(bytes, 10),
                speed_vert: read_i16(bytes, 13),
                accel: read_i16(bytes, 15),
                angle: bytes[17],
                batt_voltage: read_i16(bytes, 18),
                time: read_i16(bytes, 20),
                pyro_states: bytes[22],
                log_status: read_i8(bytes[23]),
                gps_lat: read_i32(bytes, 24),
                gps_lng: read_i32(bytes, 28),
                gps_state: read_i8(bytes[32]),
                warn_code: bytes[33],
                rolling_message,
                user_in1,
                user_in2,
            },
        )
    }
}

/// What decoding the telemetry line `line` gives: its payload must carry
/// the marker of a binary packet, and the bytes that the payload writes are
/// decoded. The metadata of the line plays no part.
pub open spec fn decode_line(line: Seq<char>) -> Result<FluctusPacket, SteadyErrorView> {
    match line_hex(line) {
        None => Err(SteadyErrorView::UnsupportedFraming),
        Some(hex) => outcome(decode_packet(hex_to_bytes(hex))),
    }
}

impl FluctusPacket {
    /// Decodes the packet of one telemetry line: `FB` and the payload in
    /// hexadecimal, up to the `|` where there is one. The metadata after
    /// the `|` is not read: a line without it, or with malformed metadata,
    /// decodes all the same.
    pub fn from_str(code: &str) -> (r: Result<FluctusPacket, SteadyError>)
        ensures
            outcome(r) == decode_line(code@),
    {
        let hex: String = match extract_hexbytes(code) {
            Err(error) => {
                return Err(error);
            },
            Ok(hex) => hex,
        };
        let bytes: Vec<u8> = convert_to_bytes(hex.as_str());
        FluctusPacket::from_bytes(bytes.as_slice())
    }
}

impl std::str::FromStr for FluctusPacket {
    type Err = SteadyError;

    fn from_str(code: &str) -> (r: Result<FluctusPacket, SteadyError>)
        ensures
            outcome(r) == decode_line(code@),
    {
        FluctusPacket::from_str(code)
    }
}

} // verus!
