//! Codec for the text and binary protocol spoken between a Steady ground
//! station and a Fluctus flight computer: telemetry lines are decoded into
//! records, commands are encoded to and decoded from their wire text, and
//! acknowledgment replies are parsed.
//!
//! Every function works on caller-owned text or bytes and returns an owned
//! result; nothing here performs I/O.

pub mod steady;

pub use steady::commands::arm::ArmCommand;
pub use steady::commands::command::Command;
pub use steady::commands::ping::PingCommand;
pub use steady::commands::start::{Band, StartCommand};
pub use steady::error::{CommandFault, SteadyError};
pub use steady::packets::fluctus_packet::{FlightStatus, FluctusPacket, FromBytes, RollingMessage};
pub use steady::packets::metadata::FluctusPacketMeta;
pub use steady::responses::response::SteadyReply;
