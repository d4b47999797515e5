//! Host-side driver core for the ATECC508A cryptographic-authentication
//! companion chip.
//!
//! The chip sits on a two-wire bus and answers framed commands. This crate
//! holds the verified part of the driver: the bit-serial CRC-16, the command
//! framer, the split-phase operation state machine with its per-phase retry
//! ceilings, the entropy-pool word source, and the lock/key lifecycle records.
//!
//! The driver never blocks and never performs bus transfers itself: every
//! public entry point returns the transfer the caller must perform, and the
//! eventual outcome re-enters the machine through [`driver::Atecc508a::command_complete`].

pub mod crc;
pub mod types;
pub mod frame;
pub mod protocol;
pub mod driver;
