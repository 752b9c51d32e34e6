//! Failures of a key calculation.

use vstd::prelude::*;
use vstd::string::StringExecFns;
use crate::text::{hex_byte, hex_text};

verus! {

/// Why a table could not be used or a key could not be computed.
#[derive(Debug, Clone, Copy, PartialEq, Eq, Structural)]
pub enum KeyError {
    /// The record of the requested algorithm does not lie within the table.
    OutOfBounds,
    /// The record holds this byte where an opcode is expected, and the byte encodes
    /// no operation. Reported under the strict policy only.
    UnknownOpcode(u8),
    /// The buffer is empty or its length is no multiple of the record stride.
    InvalidTable,
}

/// The text that describes a failure of a key calculation.
pub open spec fn key_error_text(error: KeyError) -> Seq<char> {
    match error {
        KeyError::OutOfBounds => "Algorithm definition out of bounds"@,
        KeyError::UnknownOpcode(byte) => "Unknown opcode: "@ + hex_text(byte),
        KeyError::InvalidTable => "Invalid algorithm table"@,
    }
}

impl KeyError {
    /// Describes the failure in words.
    pub fn message(&self) -> (r: String)
        ensures
            r@ == key_error_text(*self),
    {
        match self {
            KeyError::OutOfBounds => "Algorithm definition out of bounds".to_owned(),
            KeyError::UnknownOpcode(byte) => {
                let mut text = "Unknown opcode: ".to_owned();
                text.append(hex_byte(*byte).as_str());
                text
            },
            KeyError::InvalidTable => "Invalid algorithm table".to_owned(),
        }
    }
}

} // verus!
