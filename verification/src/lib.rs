//! Seed/key security-access computation for GM-family ECUs.
//!
//! An ECU issues a 16-bit seed; the key that unlocks it is the result of a short
//! record of bit operations applied to the seed. The records live in a binary
//! table, one per algorithm index.

pub mod config;
pub mod device;
pub mod driver;
pub mod error;
pub mod filter;
pub mod key;
pub mod opcode;
pub mod passthru;
pub mod scan;
pub mod search;
pub mod table;
pub mod text;
