pub mod commands;
pub mod decimal;
pub mod error;
pub mod packets;
pub mod responses;
pub mod text;
