pub mod arm;
pub mod command;
pub mod ping;
pub mod start;
