//! Shared definitions: the fault type for accesses the hardware does not
//! define, and small spec helpers for byte and word arithmetic.

use vstd::prelude::*;

verus! {

/// A condition the emulated machine has no defined behaviour for; the
/// original hardware model treats reaching one of these as fatal.
#[derive(Clone, Copy, Debug, PartialEq, Eq, Structural)]
pub enum Fault {
    /// A CPU-space read of an address no device answers.
    BadRead(u16),
    /// A CPU-space write to an address no writable device claims.
    BadWrite(u16),
    /// An opcode this interpreter does not execute (KIL and the rarer
    /// unofficial operations).
    Halt(crate::opcodes::Operation),
}

/// The 16-bit word with `high` as its upper and `low` as its lower byte.
pub open spec fn spec_join(high: u8, low: u8) -> u16 {
    ((high as u16) << 8) | (low as u16)
}

/// Wrapping 8-bit addition.
pub open spec fn wadd8(a: u8, b: u8) -> u8 {
    vstd::wrapping::u8_specs::wrapping_add(a, b)
}

/// Wrapping 8-bit subtraction.
pub open spec fn wsub8(a: u8, b: u8) -> u8 {
    vstd::wrapping::u8_specs::wrapping_sub(a, b)
}

/// Wrapping 16-bit addition.
pub open spec fn wadd16(a: u16, b: u16) -> u16 {
    vstd::wrapping::u16_specs::wrapping_add(a, b)
}

/// The value of `v` read as a two's-complement signed byte.
pub open spec fn to_signed(v: u8) -> int {
    if v < 128 {
        v as int
    } else {
        v - 256
    }
}

/// Executable counterpart of `to_signed`, widened to 32 bits.
pub fn signed_byte(v: u8) -> (r: i32)
    ensures
        r == to_signed(v),
{
    if v < 128 {
        v as i32
    } else {
        (v as i32) - 256
    }
}

} // verus!
