pub mod fields;
pub mod fluctus_packet;
pub mod framing;
pub mod metadata;
