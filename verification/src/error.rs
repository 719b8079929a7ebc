//! What can go wrong while a program runs.

use crate::hex::{hex_byte, hex_byte_upper, hex_digits, hex_upper};
use vstd::prelude::*;
use vstd::string::StringExecFns;

verus! {

/// Why an instruction could not be decoded or executed.
///
/// An address is that of the offending byte: the program counter plus the
/// byte's place in the instruction word. It is wider than the program
/// counter, so that it holds this sum for every program counter.
#[derive(Debug, Clone, Copy, PartialEq, Eq, Structural)]
pub enum ExecError {
    /// The bytes to decode were not exactly one instruction long.
    Decode,
    /// The mnemonic names no operation.
    InvalidMnemonic { mnemonic: u8, address: i64 },
    /// The modifier names no form of the operation.
    InvalidModifier { modifier: u8, address: i64 },
    /// The destination is not a general-purpose register.
    InvalidRegister { register: u8, address: i64 },
    /// A byte that the operation reserves is not zero.
    ReservedByte { address: i64 },
}

/// An address as the 32-bit word that a message shows: the address itself
/// where it is a program counter that is not negative, and its
/// two's-complement bit pattern for a negative one.
pub open spec fn address_word(address: i64) -> nat {
    (address as int % 0x1_0000_0000) as nat
}

impl ExecError {
    /// The text of the message for this error. Bytes are shown as two
    /// hexadecimal digits, addresses as the hexadecimal digits of their
    /// 32-bit word after `0x`.
    pub open spec fn message_text(self) -> Seq<char> {
        match self {
            ExecError::Decode => "error: instruction couldn't be decoded"@,
            ExecError::InvalidMnemonic { mnemonic, address } => "error: invalid mnemonic "@
                + hex_byte(mnemonic) + " address 0x"@ + hex_digits(address_word(address)),
            ExecError::InvalidModifier { modifier, address } => "error: invalid modifier "@
                + hex_byte(modifier) + " at 0x"@ + hex_digits(address_word(address)),
            ExecError::InvalidRegister { register, address } => "error: invalid register "@
                + hex_byte(register) + " at 0x"@ + hex_digits(address_word(address)),
            ExecError::ReservedByte { address } => "error: non-zero value for unusable byte 0x"@
                + hex_digits(address_word(address)),
        }
    }

    /// A one-line message for this error.
    pub fn message(&self) -> (text: String)
        ensures
            text@ == self.message_text(),
    {
        let mut text = String::new();
        match *self {
            ExecError::Decode => {
                text.append("error: instruction couldn't be decoded");
            },
            ExecError::InvalidMnemonic { mnemonic, address } => {
                text.append("error: invalid mnemonic ");
                text.append(hex_byte_upper(mnemonic).as_str());
                text.append(" address 0x");
                text.append(hex_upper(word_of(address)).as_str());
            },
            ExecError::InvalidModifier { modifier, address } => {
                text.append("error: invalid modifier ");
                text.append(hex_byte_upper(modifier).as_str());
                text.append(" at 0x");
                text.append(hex_upper(word_of(address)).as_str());
            },
            ExecError::InvalidRegister { register, address } => {
                text.append("error: invalid register ");
                text.append(hex_byte_upper(register).as_str());
                text.append(" at 0x");
                text.append(hex_upper(word_of(address)).as_str());
            },
            ExecError::ReservedByte { address } => {
                text.append("error: non-zero value for unusable byte 0x");
                text.append(hex_upper(word_of(address)).as_str());
            },
        }
        assert(text@ =~= self.message_text());
        text
    }
}

/// The 32-bit word of an address.
fn word_of(address: i64) -> (word: u64)
    ensures
        word == address_word(address),
{
    if address >= 0 {
        (address % 0x1_0000_0000) as u64
    } else {
        let below: i64 = -(address + 1);
        (0xffff_ffff - below % 0x1_0000_0000) as u64
    }
}

} // verus!
