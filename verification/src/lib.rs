//! Core of a cycle-counted emulator for a 6502-based home console:
//! the CPU interpreter, the audio unit's frame sequencer and pulse
//! channels, and the NROM cartridge mapper, together with the memory
//! bus that routes CPU addresses between them.

pub mod apu;
pub mod bus;
pub mod common;
pub mod cpu;
pub mod laws;
pub mod mapper;
pub mod opcodes;
pub mod semantics;

use vstd::prelude::*;

verus! {

/// Combines a high and a low byte into a 16-bit word, high byte first.
pub fn join_bytes(high: u8, low: u8) -> (r: u16)
    ensures
        r == common::spec_join(high, low),
{
    ((high as u16) << 8) | (low as u16)
}

} // verus!
