//! The instruction-set semantics: one spec transition function per
//! operation, composed into `spec_tick`, the mathematical meaning of
//! one master-clock tick. The interpreter in `cpu` is verified against
//! these functions clause by clause.
//!
//! Each per-operation function returns the machine afterwards, the
//! number of bytes the program counter advances, and the fault, if the
//! operation touched an address the machine does not define (on a
//! fault the state is whatever the partial execution left, and the
//! program counter does not advance).

use vstd::prelude::*;

use crate::bus::{BusM, bus_get, bus_set, spec_bus_read, spec_bus_write, spec_get_page};
use crate::common::{Fault, spec_join, to_signed, wadd16, wadd8, wsub8};
use crate::cpu::Flags;
use crate::opcodes::{AddressMode, Opcode, Operation, spec_byte_count, spec_opcode};

verus! {

/// Address of the two-byte NMI vector.
pub const NMI_VECTOR: u16 = 0xFFFA;

/// Address of the two-byte RESET vector.
pub const RESET_VECTOR: u16 = 0xFFFC;

/// Address of the two-byte IRQ/BRK vector.
pub const IRQ_VECTOR: u16 = 0xFFFE;

/// Bits 4 and 5, forced on when P is pushed by PHP or an interrupt.
pub const PHP_MASK: u8 = 0b0011_0000;

/// Bit 7, the sign bit of a byte.
pub const SIGN_BIT: u8 = 0b1000_0000;

/// The CPU's mathematical state.
pub ghost struct CpuM {
    pub bus: BusM,
    pub a: u8,
    pub x: u8,
    pub y: u8,
    pub pc: u16,
    pub s: u8,
    pub p: Flags,
    pub nmi: bool,
    pub irq: bool,
    pub reset: bool,
    pub remaining_pause: u16,
    pub instruction_counter: u64,
}

impl CpuM {
    pub open spec fn wf(self) -> bool {
        self.bus.wf()
    }
}

/// The status register as the byte the stack sees. Each flag occupies
/// its own bit, so the sum equals the bitwise OR.
pub open spec fn flags_bits(f: Flags) -> u8 {
    ((if f.carry {
        0x01int
    } else {
        0int
    }) + (if f.zero {
        0x02int
    } else {
        0int
    }) + (if f.interrupt_disable {
        0x04int
    } else {
        0int
    }) + (if f.decimal {
        0x08int
    } else {
        0int
    }) + (if f.brk {
        0x20int
    } else {
        0int
    }) + (if f.overflow {
        0x40int
    } else {
        0int
    }) + (if f.negative {
        0x80int
    } else {
        0int
    })) as u8
}

/// The status register read back from a byte. Bit 4 has no stored flag
/// and is dropped, as the original part drops it.
pub open spec fn flags_from_bits(b: u8) -> Flags {
    Flags {
        carry: b & 0x01 != 0,
        zero: b & 0x02 != 0,
        interrupt_disable: b & 0x04 != 0,
        decimal: b & 0x08 != 0,
        brk: b & 0x20 != 0,
        overflow: b & 0x40 != 0,
        negative: b & 0x80 != 0,
    }
}

/// Negative and Zero updated from a freshly computed value.
pub open spec fn spec_value_flags(p: Flags, val: u8) -> Flags {
    Flags { negative: val & SIGN_BIT != 0, zero: val == 0, ..p }
}

/// The high byte of a word.
pub open spec fn high_byte(w: u16) -> u8 {
    (w / 256) as u8
}

/// The low byte of a word.
pub open spec fn low_byte(w: u16) -> u8 {
    (w % 256) as u8
}

/// Whether two addresses lie on different 256-byte pages.
pub open spec fn spec_different_pages(a1: u16, a2: u16) -> bool {
    high_byte(a1) != high_byte(a2)
}

/// The byte after the opcode.
pub open spec fn spec_next_byte(m: CpuM) -> Result<u8, Fault> {
    spec_bus_read(m.bus, wadd16(m.pc, 1))
}

/// Absolute operand fetch: the little-endian word after the opcode,
/// plus an optional index register, with page-cross detection.
pub open spec fn spec_absolute_lookup(m: CpuM, jump: Option<u8>) -> Result<(u16, bool), Fault> {
    match spec_bus_read(m.bus, wadd16(m.pc, 2)) {
        Err(f) => Err(f),
        Ok(high) => match spec_bus_read(m.bus, wadd16(m.pc, 1)) {
            Err(f) => Err(f),
            Ok(low) => {
                let origin = spec_join(high, low);
                match jump {
                    Some(v) => {
                        let dest = wadd16(origin, v as u16);
                        Ok((dest, spec_different_pages(origin, dest)))
                    },
                    None => Ok((origin, false)),
                }
            },
        },
    }
}

/// The effective address an instruction at PC works on, and whether
/// resolving it crossed a page boundary. Accumulator and Implicit
/// modes have no address and yield 0. Indirect mode reproduces the
/// hardware's page-wrap defect: a pointer whose low byte is 0xFF takes
/// its high byte from the start of the pointer's own page.
#[verifier::opaque]
pub open spec fn spec_resolve(m: CpuM, op: Opcode) -> Result<(u16, bool), Fault> {
    match op.1 {
        AddressMode::Accumulator => Ok((0u16, false)),
        AddressMode::Implicit => Ok((0u16, false)),
        AddressMode::Immediate => Ok((wadd16(m.pc, 1), false)),
        AddressMode::Absolute => spec_absolute_lookup(m, None),
        AddressMode::AbsoluteX => spec_absolute_lookup(m, Some(m.x)),
        AddressMode::AbsoluteY => spec_absolute_lookup(m, Some(m.y)),
        AddressMode::ZeroPage => match spec_next_byte(m) {
            Err(f) => Err(f),
            Ok(arg) => Ok((spec_join(0, arg), false)),
        },
        AddressMode::ZeroPageX => match spec_next_byte(m) {
            Err(f) => Err(f),
            Ok(arg) => Ok((spec_join(0, wadd8(arg, m.x)), false)),
        },
        AddressMode::ZeroPageY => match spec_next_byte(m) {
            Err(f) => Err(f),
            Ok(arg) => Ok((spec_join(0, wadd8(arg, m.y)), false)),
        },
        AddressMode::Relative => match spec_next_byte(m) {
            Err(f) => Err(f),
            Ok(arg) => {
                let dest = wadd16(m.pc, ((arg as i8) as u16));
                Ok((dest, spec_different_pages(m.pc, dest)))
            },
        },
        AddressMode::Indirect => match spec_bus_read(m.bus, wadd16(m.pc, 2)) {
            Err(f) => Err(f),
            Ok(high) => match spec_bus_read(m.bus, wadd16(m.pc, 1)) {
                Err(f) => Err(f),
                Ok(low) => {
                    let addr = spec_join(high, low);
                    let high_byte_addr = if low_byte(addr) == 0xFF {
                        (addr - low_byte(addr)) as u16
                    } else {
                        wadd16(addr, 1)
                    };
                    match spec_bus_read(m.bus, high_byte_addr) {
                        Err(f) => Err(f),
                        Ok(h) => match spec_bus_read(m.bus, addr) {
                            Err(f) => Err(f),
                            Ok(l) => Ok((spec_join(h, l), false)),
                        },
                    }
                },
            },
        },
        AddressMode::IndirectX => match spec_next_byte(m) {
            Err(f) => Err(f),
            Ok(operand) => {
                let arg = wadd8(operand, m.x);
                match spec_bus_read(m.bus, spec_join(0, arg)) {
                    Err(f) => Err(f),
                    Ok(low) => match spec_bus_read(m.bus, spec_join(0, wadd8(arg, 1))) {
                        Err(f) => Err(f),
                        Ok(high) => Ok((spec_join(high, low), false)),
                    },
                }
            },
        },
        AddressMode::IndirectY => match spec_next_byte(m) {
            Err(f) => Err(f),
            Ok(arg) => match spec_bus_read(m.bus, spec_join(0, arg)) {
                Err(f) => Err(f),
                Ok(low) => match spec_bus_read(m.bus, spec_join(0, wadd8(arg, 1))) {
                    Err(f) => Err(f),
                    Ok(high) => {
                        let origin = spec_join(high, low);
                        let dest = wadd16(origin, m.y as u16);
                        Ok((dest, spec_different_pages(origin, dest)))
                    },
                },
            },
        },
    }
}

/// The effective address and the operand byte it holds.
pub open spec fn spec_operand(m: CpuM, op: Opcode) -> Result<(u16, bool, u8), Fault> {
    match spec_resolve(m, op) {
        Err(f) => Err(f),
        Ok((addr, crossed)) => match spec_bus_read(m.bus, addr) {
            Err(f) => Err(f),
            Ok(v) => Ok((addr, crossed, v)),
        },
    }
}

/// One more pending cycle where the opcode pays for a crossed page.
pub open spec fn spec_page_crossed_penalty(pause: u16, op: Opcode, crossed: bool) -> u16 {
    if op.3 && crossed {
        (pause + 1) as u16
    } else {
        pause
    }
}

/// Sets the pending cycles (page-cross penalty included) and gives the
/// byte count the program counter advances.
#[verifier::opaque]
pub open spec fn spec_set_pause(m: CpuM, pause: u16, op: Opcode, crossed: bool) -> (CpuM, u16) {
    (
        CpuM { remaining_pause: spec_page_crossed_penalty(pause, op, crossed), ..m },
        spec_byte_count(op.1),
    )
}

/// Pending cycles for the ordinary read-operand operations (one lower
/// than the documented cost: the dispatching tick is the first cycle).
#[verifier::opaque]
pub open spec fn spec_group1_pause(m: CpuM, op: Opcode, crossed: bool) -> (CpuM, u16) {
    match op.1 {
        AddressMode::Immediate => spec_set_pause(m, 1, op, crossed),
        AddressMode::ZeroPage => spec_set_pause(m, 2, op, crossed),
        AddressMode::ZeroPageX | AddressMode::ZeroPageY | AddressMode::Absolute => spec_set_pause(
            m,
            3,
            op,
            crossed,
        ),
        AddressMode::AbsoluteX | AddressMode::AbsoluteY => spec_set_pause(m, 3, op, crossed),
        AddressMode::IndirectX => spec_set_pause(m, 5, op, crossed),
        AddressMode::IndirectY => spec_set_pause(m, 4, op, crossed),
        _ => (m, 0),
    }
}

/// Pending cycles for the two-step unofficial opcodes.
#[verifier::opaque]
pub open spec fn spec_illegal_pause(m: CpuM, op: Opcode) -> (CpuM, u16) {
    match op.1 {
        AddressMode::Absolute => spec_set_pause(m, 5, op, false),
        AddressMode::AbsoluteX | AddressMode::AbsoluteY => spec_set_pause(m, 6, op, false),
        AddressMode::ZeroPage => spec_set_pause(m, 4, op, false),
        AddressMode::ZeroPageX => spec_set_pause(m, 5, op, false),
        AddressMode::IndirectX | AddressMode::IndirectY => spec_set_pause(m, 7, op, false),
        _ => (m, 0),
    }
}

/// A CPU-driven write. A write to 0x4014 is the OAM DMA side channel:
/// the page named by the value is copied to sprite memory and the CPU
/// pays 513 cycles; everything else goes to the bus.
pub open spec fn spec_mem_write(m: CpuM, addr: u16, value: u8) -> (CpuM, Option<Fault>) {
    if addr == 0x4014 {
        match spec_get_page(m.bus, value) {
            Err(f) => (m, Some(f)),
            Ok(page) => (
                CpuM {
                    bus: BusM { oam: page, ..m.bus },
                    remaining_pause: (m.remaining_pause + 513) as u16,
                    ..m
                },
                None,
            ),
        }
    } else {
        match spec_bus_write(m.bus, addr, value) {
            Err(f) => (m, Some(f)),
            Ok(b2) => (CpuM { bus: b2, ..m }, None),
        }
    }
}

/// Pushes one byte at 0x0100 + S and decrements S (wrapping).
pub open spec fn spec_stack_push(m: CpuM, v: u8) -> CpuM {
    CpuM { bus: bus_set(m.bus, spec_join(0x01, m.s), v), s: wsub8(m.s, 1), ..m }
}

/// Increments S (wrapping) and reads the byte at 0x0100 + S.
pub open spec fn spec_stack_pop(m: CpuM) -> (CpuM, u8) {
    let s2 = wadd8(m.s, 1);
    (CpuM { s: s2, ..m }, bus_get(m.bus, spec_join(0x01, s2)))
}

/// Interrupt entry: pushes PC high then low, then P with `b_mask`
/// or'ed in, and loads PC from the vector.
pub open spec fn spec_interrupt(m: CpuM, b_mask: u8, vector: u16) -> CpuM {
    let m1 = spec_stack_push(m, high_byte(m.pc));
    let m2 = spec_stack_push(m1, low_byte(m.pc));
    let m3 = spec_stack_push(m2, flags_bits(m.p) | b_mask);
    CpuM {
        pc: spec_join(bus_get(m3.bus, wadd16(vector, 1)), bus_get(m3.bus, vector)),
        ..m3
    }
}

/// IRQ service: the latch clears and the interrupt is taken. The tick
/// dispatch reaches this only while interrupts are enabled; a latched
/// IRQ stays latched under InterruptDisable.
pub open spec fn spec_irq(m: CpuM) -> CpuM {
    spec_interrupt(CpuM { irq: false, ..m }, PHP_MASK, IRQ_VECTOR)
}

/// NMI service: unconditional once latched.
pub open spec fn spec_nmi(m: CpuM) -> CpuM {
    spec_interrupt(CpuM { nmi: false, ..m }, PHP_MASK, NMI_VECTOR)
}

/// RESET service: unconditional once latched.
pub open spec fn spec_reset(m: CpuM) -> CpuM {
    spec_interrupt(CpuM { reset: false, ..m }, PHP_MASK, RESET_VECTOR)
}

/// ADC: A + operand + C, carry on unsigned overflow, overflow on a
/// signed sum outside -128..=127.
#[verifier::opaque]
pub open spec fn spec_adc(m: CpuM, op: Opcode) -> (CpuM, u16, Option<Fault>) {
    match spec_operand(m, op) {
        Err(f) => (m, 0, Some(f)),
        Ok((addr, crossed, v)) => {
            let c: int = if m.p.carry {
                1
            } else {
                0
            };
            let signed_sum = to_signed(v) + to_signed(m.a) + c;
            let a2 = wadd8(
                wadd8(m.a, v),
                if m.p.carry {
                    1u8
                } else {
                    0u8
                },
            );
            let p2 = Flags {
                overflow: signed_sum < -128 || signed_sum > 127,
                ..spec_value_flags(Flags { carry: m.a + v + c > 255, ..m.p }, a2)
            };
            let (m2, sh) = spec_group1_pause(CpuM { a: a2, p: p2, ..m }, op, crossed);
            (m2, sh, None)
        },
    }
}

/// SBC: A - operand - (1 - C), carry when no borrow, overflow when the
/// signed difference falls outside -128..=127.
#[verifier::opaque]
pub open spec fn spec_sbc(m: CpuM, op: Opcode) -> (CpuM, u16, Option<Fault>) {
    match spec_operand(m, op) {
        Err(f) => (m, 0, Some(f)),
        Ok((addr, crossed, v)) => {
            let c: int = if m.p.carry {
                1
            } else {
                0
            };
            let signed_sum = to_signed(m.a) - to_signed(v) - (1 - c);
            let a2 = wsub8(wsub8(m.a, v), (1 - c) as u8);
            let p2 = Flags {
                overflow: signed_sum < -128 || signed_sum > 127,
                ..spec_value_flags(Flags { carry: m.a - v - (1 - c) >= 0, ..m.p }, a2)
            };
            let (m2, sh) = spec_group1_pause(CpuM { a: a2, p: p2, ..m }, op, crossed);
            (m2, sh, None)
        },
    }
}

/// AND: A & operand.
#[verifier::opaque]
pub open spec fn spec_and(m: CpuM, op: Opcode) -> (CpuM, u16, Option<Fault>) {
    match spec_operand(m, op) {
        Err(f) => (m, 0, Some(f)),
        Ok((addr, crossed, v)) => {
            let a2 = m.a & v;
            let m1 = CpuM { a: a2, p: spec_value_flags(m.p, a2), ..m };
            let (m2, sh) = spec_group1_pause(m1, op, crossed);
            (m2, sh, None)
        },
    }
}

/// ORA: A | operand.
#[verifier::opaque]
pub open spec fn spec_ora(m: CpuM, op: Opcode) -> (CpuM, u16, Option<Fault>) {
    match spec_operand(m, op) {
        Err(f) => (m, 0, Some(f)),
        Ok((addr, crossed, v)) => {
            let a2 = m.a | v;
            let m1 = CpuM { a: a2, p: spec_value_flags(m.p, a2), ..m };
            let (m2, sh) = spec_group1_pause(m1, op, crossed);
            (m2, sh, None)
        },
    }
}

/// EOR: A ^ operand.
#[verifier::opaque]
pub open spec fn spec_eor(m: CpuM, op: Opcode) -> (CpuM, u16, Option<Fault>) {
    match spec_operand(m, op) {
        Err(f) => (m, 0, Some(f)),
        Ok((addr, crossed, v)) => {
            let a2 = m.a ^ v;
            let m1 = CpuM { a: a2, p: spec_value_flags(m.p, a2), ..m };
            let (m2, sh) = spec_group1_pause(m1, op, crossed);
            (m2, sh, None)
        },
    }
}

/// Pending cycles for the shift and rotate opcodes.
#[verifier::opaque]
pub open spec fn spec_shift_pause(m: CpuM, op: Opcode) -> (CpuM, u16) {
    match op.1 {
        AddressMode::Accumulator => spec_set_pause(m, 1, op, false),
        AddressMode::ZeroPage => spec_set_pause(m, 4, op, false),
        AddressMode::ZeroPageX | AddressMode::Absolute => spec_set_pause(m, 5, op, false),
        AddressMode::AbsoluteX => spec_set_pause(m, 6, op, false),
        // the remaining modes occur only under two-step unofficial
        // opcodes, which set the pause themselves afterwards
        _ => (m, 0),
    }
}

/// ASL on a value: carry takes bit 7.
pub open spec fn spec_asl_value(p: Flags, value: u8) -> (Flags, u8) {
    let out = value << 1;
    (spec_value_flags(Flags { carry: value & 0x80 != 0, ..p }, out), out)
}

/// LSR on a value: carry takes bit 0.
pub open spec fn spec_lsr_value(p: Flags, value: u8) -> (Flags, u8) {
    let out = value >> 1;
    (spec_value_flags(Flags { carry: value & 0x01 != 0, ..p }, out), out)
}

/// ROL on a value: carry takes bit 7, the old carry enters at bit 0.
pub open spec fn spec_rol_value(p: Flags, value: u8) -> (Flags, u8) {
    let shifted = value << 1;
    let out = if p.carry {
        shifted ^ 0x01
    } else {
        shifted
    };
    (spec_value_flags(Flags { carry: value & 0x80 != 0, ..p }, out), out)
}

/// ROR on a value: carry takes bit 0, the old carry enters at bit 7.
pub open spec fn spec_ror_value(p: Flags, value: u8) -> (Flags, u8) {
    let shifted = value >> 1;
    let out = if p.carry {
        shifted ^ 0x80
    } else {
        shifted
    };
    (spec_value_flags(Flags { carry: value & 0x01 != 0, ..p }, out), out)
}

/// A shift or rotate applied to the accumulator or to memory: the
/// value transform is given by `kind` (0 ASL, 1 LSR, 2 ROL, 3 ROR).
#[verifier::opaque]
pub open spec fn spec_shift_value(kind: int, p: Flags, value: u8) -> (Flags, u8) {
    if kind == 0 {
        spec_asl_value(p, value)
    } else if kind == 1 {
        spec_lsr_value(p, value)
    } else if kind == 2 {
        spec_rol_value(p, value)
    } else {
        spec_ror_value(p, value)
    }
}

/// The common shape of ASL, LSR, ROL and ROR.
#[verifier::opaque]
pub open spec fn spec_shift_op(m: CpuM, op: Opcode, kind: int) -> (CpuM, u16, Option<Fault>) {
    if op.1 == AddressMode::Accumulator {
        let (p2, out) = spec_shift_value(kind, m.p, m.a);
        let (m2, sh) = spec_shift_pause(CpuM { a: out, p: p2, ..m }, op);
        (m2, sh, None)
    } else {
        match spec_operand(m, op) {
            Err(f) => (m, 0, Some(f)),
            Ok((addr, crossed, v)) => {
                let (p2, out) = spec_shift_value(kind, m.p, v);
                let m1 = CpuM { p: p2, ..m };
                let (m2, wf) = spec_mem_write(m1, addr, out);
                if wf is Some {
                    (m2, 0, wf)
                } else {
                    let (m3, sh) = spec_shift_pause(m2, op);
                    (m3, sh, None)
                }
            },
        }
    }
}

/// BIT: Zero from A & operand, Negative and Overflow from the
/// operand's bits 7 and 6.
#[verifier::opaque]
pub open spec fn spec_bit(m: CpuM, op: Opcode) -> (CpuM, u16, Option<Fault>) {
    match spec_operand(m, op) {
        Err(f) => (m, 0, Some(f)),
        Ok((addr, crossed, v)) => {
            let p2 = Flags {
                negative: v & SIGN_BIT != 0,
                overflow: v & 0x40 != 0,
                zero: v & m.a == 0,
                ..m.p
            };
            let m1 = CpuM { p: p2, ..m };
            match op.1 {
                AddressMode::ZeroPage => {
                    let (m2, sh) = spec_set_pause(m1, 2, op, crossed);
                    (m2, sh, None)
                },
                AddressMode::Absolute => {
                    let (m2, sh) = spec_set_pause(m1, 3, op, crossed);
                    (m2, sh, None)
                },
                _ => (m1, 0, None),
            }
        },
    }
}

/// A branch: 2 pending cycles untaken; a taken branch pays 1 more, or
/// 3 more across a page boundary, and moves PC to the target.
#[verifier::opaque]
pub open spec fn spec_branch(m: CpuM, op: Opcode, cond: bool) -> (CpuM, u16, Option<Fault>) {
    let m1 = CpuM { remaining_pause: 2, ..m };
    if cond {
        match spec_resolve(m1, op) {
            Err(f) => (m1, 0, Some(f)),
            Ok((addr, crossed)) => (
                CpuM {
                    pc: addr,
                    remaining_pause: if crossed {
                        5
                    } else {
                        3
                    },
                    ..m1
                },
                2,
                None,
            ),
        }
    } else {
        (m1, 2, None)
    }
}

/// BRK: PC steps over the padding byte; with interrupts disabled this
/// implementation stops there, otherwise it enters the IRQ vector.
#[verifier::opaque]
pub open spec fn spec_brk(m: CpuM, op: Opcode) -> (CpuM, u16, Option<Fault>) {
    let m1 = CpuM { pc: wadd16(m.pc, 1), ..m };
    if m.p.interrupt_disable {
        (m1, 0, None)
    } else {
        let m2 = CpuM { remaining_pause: 6, ..m1 };
        (spec_interrupt(m2, PHP_MASK, IRQ_VECTOR), 0, None)
    }
}

/// CMP/CPX/CPY against the register value `to`.
#[verifier::opaque]
pub open spec fn spec_compare(m: CpuM, op: Opcode, to: u8) -> (CpuM, u16, Option<Fault>) {
    match spec_operand(m, op) {
        Err(f) => (m, 0, Some(f)),
        Ok((addr, crossed, v)) => {
            let p2 = Flags {
                carry: to >= v,
                zero: to == v,
                negative: wsub8(to, v) >= 128,
                ..m.p
            };
            let (m2, sh) = spec_group1_pause(CpuM { p: p2, ..m }, op, crossed);
            (m2, sh, None)
        },
    }
}

/// The shared body of the increment and decrement operations: the new
/// value, its flags, and the pending cycles for the mode.
#[verifier::opaque]
pub open spec fn spec_increment(m: CpuM, val: u8, op: Opcode, decrement: bool) -> (
    CpuM,
    u8,
    u16,
) {
    let v2 = if decrement {
        wsub8(val, 1)
    } else {
        wadd8(val, 1)
    };
    let m1 = CpuM { p: spec_value_flags(m.p, v2), ..m };
    let (m2, sh) = match op.1 {
        AddressMode::Implicit => spec_set_pause(m1, 1, op, false),
        AddressMode::ZeroPage => spec_set_pause(m1, 4, op, false),
        AddressMode::ZeroPageX | AddressMode::Absolute => spec_set_pause(m1, 5, op, false),
        AddressMode::AbsoluteX => spec_set_pause(m1, 6, op, false),
        // reachable only under two-step unofficial opcodes, which set
        // the pause themselves afterwards
        _ => (m1, 0u16),
    };
    (m2, v2, sh)
}

/// DEC or INC on memory.
#[verifier::opaque]
pub open spec fn spec_inc_dec_mem(m: CpuM, op: Opcode, decrement: bool) -> (
    CpuM,
    u16,
    Option<Fault>,
) {
    match spec_operand(m, op) {
        Err(f) => (m, 0, Some(f)),
        Ok((addr, crossed, v)) => {
            let (m1, v2, sh) = spec_increment(m, v, op, decrement);
            let (m2, wf) = spec_mem_write(m1, addr, v2);
            if wf is Some {
                (m2, 0, wf)
            } else {
                (m2, sh, None)
            }
        },
    }
}

/// DEX/DEY/INX/INY on a register; the caller stores the new value.
pub open spec fn spec_inc_dec_reg(m: CpuM, val: u8, op: Opcode, decrement: bool) -> (
    CpuM,
    u8,
    u16,
) {
    spec_increment(m, val, op, decrement)
}

/// JMP: PC moves to the resolved address.
#[verifier::opaque]
pub open spec fn spec_jmp(m: CpuM, op: Opcode) -> (CpuM, u16, Option<Fault>) {
    match spec_resolve(m, op) {
        Err(f) => (m, 0, Some(f)),
        Ok((addr, crossed)) => {
            let pause: u16 = match op.1 {
                AddressMode::Absolute => 2,
                AddressMode::Indirect => 4,
                _ => m.remaining_pause,
            };
            (CpuM { pc: addr, remaining_pause: pause, ..m }, 0, None)
        },
    }
}

/// JSR: pushes PC + 2 high then low and jumps.
#[verifier::opaque]
pub open spec fn spec_jsr(m: CpuM, op: Opcode) -> (CpuM, u16, Option<Fault>) {
    match spec_resolve(m, op) {
        Err(f) => (m, 0, Some(f)),
        Ok((addr, crossed)) => {
            let ret = wadd16(m.pc, 2);
            let m1 = spec_stack_push(m, high_byte(ret));
            let m2 = spec_stack_push(m1, low_byte(ret));
            (CpuM { pc: addr, remaining_pause: 5, ..m2 }, 0, None)
        },
    }
}

/// LDA: loads A with value flags.
#[verifier::opaque]
pub open spec fn spec_lda(m: CpuM, op: Opcode) -> (CpuM, u16, Option<Fault>) {
    match spec_operand(m, op) {
        Err(f) => (m, 0, Some(f)),
        Ok((addr, crossed, v)) => {
            let m1 = CpuM { a: v, p: spec_value_flags(m.p, v), ..m };
            let (m2, sh) = spec_group1_pause(m1, op, crossed);
            (m2, sh, None)
        },
    }
}

/// LDX: loads X with value flags.
#[verifier::opaque]
pub open spec fn spec_ldx(m: CpuM, op: Opcode) -> (CpuM, u16, Option<Fault>) {
    match spec_operand(m, op) {
        Err(f) => (m, 0, Some(f)),
        Ok((addr, crossed, v)) => {
            let m1 = CpuM { x: v, p: spec_value_flags(m.p, v), ..m };
            let (m2, sh) = spec_group1_pause(m1, op, crossed);
            (m2, sh, None)
        },
    }
}

/// LDY: loads Y with value flags.
#[verifier::opaque]
pub open spec fn spec_ldy(m: CpuM, op: Opcode) -> (CpuM, u16, Option<Fault>) {
    match spec_operand(m, op) {
        Err(f) => (m, 0, Some(f)),
        Ok((addr, crossed, v)) => {
            let m1 = CpuM { y: v, p: spec_value_flags(m.p, v), ..m };
            let (m2, sh) = spec_group1_pause(m1, op, crossed);
            (m2, sh, None)
        },
    }
}

/// A register-to-register transfer, with value flags where the
/// hardware sets them (all but TXS); one byte of advance.
#[verifier::opaque]
pub open spec fn spec_transfer(m: CpuM, oper: Operation) -> CpuM {
    let m1 = match oper {
        Operation::TAX => {
            let m0 = CpuM { x: m.a, ..m };
            CpuM { p: spec_value_flags(m0.p, m0.x), ..m0 }
        },
        Operation::TAY => {
            let m0 = CpuM { y: m.a, ..m };
            CpuM { p: spec_value_flags(m0.p, m0.y), ..m0 }
        },
        Operation::TXS => CpuM { s: m.x, ..m },
        Operation::TSX => {
            let m0 = CpuM { x: m.s, ..m };
            CpuM { p: spec_value_flags(m0.p, m0.x), ..m0 }
        },
        Operation::TXA => {
            let m0 = CpuM { a: m.x, ..m };
            CpuM { p: spec_value_flags(m0.p, m0.a), ..m0 }
        },
        Operation::TYA => {
            let m0 = CpuM { a: m.y, ..m };
            CpuM { p: spec_value_flags(m0.p, m0.a), ..m0 }
        },
        _ => m,
    };
    CpuM { remaining_pause: 1, ..m1 }
}

/// LAX: LDA then TAX at the same operand, keeping LDA's cycle
/// accounting (the two share a cost column in the table).
#[verifier::opaque]
pub open spec fn spec_lax(m: CpuM, op: Opcode) -> (CpuM, u16, Option<Fault>) {
    let (m1, sh1, f1) = spec_lda(m, op);
    if f1 is Some {
        (m1, 0, f1)
    } else {
        (CpuM { x: m1.a, p: spec_value_flags(m1.p, m1.a), ..m1 }, sh1, None)
    }
}

/// NOP: the documented pending cycles for the slot's mode and the
/// byte count. No operand is read, so the absolute-indexed unofficial
/// slots pay no page-cross penalty here.
#[verifier::opaque]
pub open spec fn spec_nop(m: CpuM, op: Opcode) -> (CpuM, u16, Option<Fault>) {
    let pause: u16 = match op.1 {
        AddressMode::Implicit | AddressMode::Immediate => 1,
        AddressMode::ZeroPage => 2,
        AddressMode::ZeroPageX | AddressMode::Absolute | AddressMode::AbsoluteX => 3,
        _ => 1,
    };
    (CpuM { remaining_pause: pause, ..m }, spec_byte_count(op.1), None)
}

/// PHP: pushes P with bits 4 and 5 forced on.
#[verifier::opaque]
pub open spec fn spec_php(m: CpuM, op: Opcode) -> (CpuM, u16, Option<Fault>) {
    let m1 = spec_stack_push(m, flags_bits(m.p) | PHP_MASK);
    (CpuM { remaining_pause: 2, ..m1 }, 1, None)
}

/// PHA: pushes A.
#[verifier::opaque]
pub open spec fn spec_pha(m: CpuM, op: Opcode) -> (CpuM, u16, Option<Fault>) {
    let m1 = spec_stack_push(m, m.a);
    (CpuM { remaining_pause: 2, ..m1 }, 1, None)
}

/// PLA: pops into A with value flags.
#[verifier::opaque]
pub open spec fn spec_pla(m: CpuM, op: Opcode) -> (CpuM, u16, Option<Fault>) {
    let (m1, v) = spec_stack_pop(m);
    let m2 = CpuM { a: v, p: spec_value_flags(m1.p, v), remaining_pause: 3, ..m1 };
    (m2, 1, None)
}

/// PLP: pops into P with the pushed mask bits cleared.
#[verifier::opaque]
pub open spec fn spec_plp(m: CpuM, op: Opcode) -> (CpuM, u16, Option<Fault>) {
    let (m1, v) = spec_stack_pop(m);
    let m2 = CpuM { p: flags_from_bits(v & 0xCF), remaining_pause: 3, ..m1 };
    (m2, 1, None)
}

/// RTS's shared body: pop low then high into PC, 5 more pending cycles.
pub open spec fn spec_rts_core(m: CpuM) -> CpuM {
    let (m1, low) = spec_stack_pop(m);
    let (m2, high) = spec_stack_pop(m1);
    CpuM {
        pc: spec_join(high, low),
        remaining_pause: (m2.remaining_pause + 5) as u16,
        ..m2
    }
}

/// RTS: returns to the pushed address plus one byte of advance.
#[verifier::opaque]
pub open spec fn spec_rts(m: CpuM, op: Opcode) -> (CpuM, u16, Option<Fault>) {
    (spec_rts_core(m), 1, None)
}

/// RTI: pops P (bit 5 kept as stored), then returns without the byte
/// of advance RTS adds.
#[verifier::opaque]
pub open spec fn spec_rti(m: CpuM, op: Opcode) -> (CpuM, u16, Option<Fault>) {
    let (m1, v) = spec_stack_pop(m);
    let m2 = CpuM {
        p: flags_from_bits(v),
        remaining_pause: (m1.remaining_pause + 1) as u16,
        ..m1
    };
    (spec_rts_core(m2), 0, None)
}

/// SAX: stores A & X.
#[verifier::opaque]
pub open spec fn spec_sax(m: CpuM, op: Opcode) -> (CpuM, u16, Option<Fault>) {
    match spec_resolve(m, op) {
        Err(f) => (m, 0, Some(f)),
        Ok((addr, crossed)) => {
            let (m1, wf) = spec_mem_write(m, addr, m.a & m.x);
            if wf is Some {
                (m1, 0, wf)
            } else {
                match op.1 {
                    AddressMode::ZeroPage => {
                        let (m2, sh) = spec_set_pause(m1, 2, op, false);
                        (m2, sh, None)
                    },
                    AddressMode::Absolute | AddressMode::ZeroPageY => {
                        let (m2, sh) = spec_set_pause(m1, 3, op, false);
                        (m2, sh, None)
                    },
                    AddressMode::IndirectX => {
                        let (m2, sh) = spec_set_pause(m1, 5, op, false);
                        (m2, sh, None)
                    },
                    _ => (m1, 0, None),
                }
            }
        },
    }
}

/// STA/STX/STY: stores the register value `value`.
#[verifier::opaque]
pub open spec fn spec_store(m: CpuM, op: Opcode, value: u8) -> (CpuM, u16, Option<Fault>) {
    match spec_resolve(m, op) {
        Err(f) => (m, 0, Some(f)),
        Ok((addr, crossed)) => {
            let (m1, wf) = spec_mem_write(m, addr, value);
            if wf is Some {
                (m1, 0, wf)
            } else {
                match op.1 {
                    AddressMode::ZeroPage => {
                        let (m2, sh) = spec_set_pause(m1, 2, op, false);
                        (m2, sh, None)
                    },
                    AddressMode::ZeroPageX | AddressMode::ZeroPageY | AddressMode::Absolute => {
                        let (m2, sh) = spec_set_pause(m1, 3, op, false);
                        (m2, sh, None)
                    },
                    AddressMode::AbsoluteX | AddressMode::AbsoluteY => {
                        let (m2, sh) = spec_set_pause(m1, 4, op, false);
                        (m2, sh, None)
                    },
                    AddressMode::IndirectX | AddressMode::IndirectY => {
                        let (m2, sh) = spec_set_pause(m1, 5, op, false);
                        (m2, sh, None)
                    },
                    _ => (m1, 0, None),
                }
            }
        },
    }
}

/// A flag set or clear; one byte of advance.
#[verifier::opaque]
pub open spec fn spec_flag_op(m: CpuM, oper: Operation) -> CpuM {
    let p2 = match oper {
        Operation::SEC => Flags { carry: true, ..m.p },
        Operation::SED => Flags { decimal: true, ..m.p },
        Operation::SEI => Flags { interrupt_disable: true, ..m.p },
        Operation::CLC => Flags { carry: false, ..m.p },
        Operation::CLD => Flags { decimal: false, ..m.p },
        Operation::CLI => Flags { interrupt_disable: false, ..m.p },
        Operation::CLV => Flags { overflow: false, ..m.p },
        _ => m.p,
    };
    CpuM { p: p2, remaining_pause: 1, ..m }
}

/// The two-step unofficial opcodes: both steps at the same resolved
/// address, then the centralized pause override.
#[verifier::opaque]
pub open spec fn spec_illegal(m: CpuM, op: Opcode) -> (CpuM, u16, Option<Fault>) {
    let (m1, sh1, f1) = match op.0 {
        Operation::DCP => spec_inc_dec_mem(m, op, true),
        Operation::ISC => spec_inc_dec_mem(m, op, false),
        Operation::SLO => spec_shift_op(m, op, 0),
        Operation::SRE => spec_shift_op(m, op, 1),
        Operation::RRA => spec_shift_op(m, op, 3),
        Operation::RLA => spec_shift_op(m, op, 2),
        _ => (m, 0, None),
    };
    if f1 is Some {
        (m1, 0, f1)
    } else {
        let (m2, sh2, f2) = match op.0 {
            Operation::DCP => spec_compare(m1, op, m1.a),
            Operation::ISC => spec_sbc(m1, op),
            Operation::SLO => spec_ora(m1, op),
            Operation::SRE => spec_eor(m1, op),
            Operation::RRA => spec_adc(m1, op),
            Operation::RLA => spec_and(m1, op),
            _ => (m1, 0, None),
        };
        if f2 is Some {
            (m2, 0, f2)
        } else {
            let m3 = CpuM { remaining_pause: 0, ..m2 };
            let (m4, sh) = spec_illegal_pause(m3, op);
            (m4, sh, None)
        }
    }
}

/// Operations whose handlers resolve an operand address (the first
/// half of the dispatch; the rest are control, stack, register and
/// flag operations).
pub open spec fn is_mem_op(oper: Operation) -> bool {
    match oper {
        Operation::ADC | Operation::AND | Operation::ASL | Operation::BIT | Operation::EOR
        | Operation::DEC | Operation::INC | Operation::LSR | Operation::ORA | Operation::ROL
        | Operation::ROR | Operation::SBC | Operation::STA | Operation::STX | Operation::STY
        | Operation::LDA | Operation::LDX | Operation::LDY | Operation::LAX | Operation::SAX
        | Operation::DCP | Operation::ISC | Operation::SLO | Operation::SRE | Operation::RRA
        | Operation::RLA | Operation::CMP | Operation::CPX | Operation::CPY => true,
        _ => false,
    }
}

/// Dispatch on the operation: the machine afterwards, the program
/// counter advance, and the fault if one arose. Operations this
/// interpreter does not execute halt with their operation named.
#[verifier::opaque]
pub open spec fn spec_dispatch(m: CpuM, op: Opcode) -> (CpuM, u16, Option<Fault>) {
    match op.0 {
        Operation::ADC => spec_adc(m, op),
        Operation::AND => spec_and(m, op),
        Operation::ASL => spec_shift_op(m, op, 0),
        Operation::BIT => spec_bit(m, op),
        Operation::BRK => spec_brk(m, op),
        Operation::EOR => spec_eor(m, op),
        Operation::DEC => spec_inc_dec_mem(m, op, true),
        Operation::DEX => {
            let (m1, v2, sh) = spec_inc_dec_reg(m, m.x, op, true);
            (CpuM { x: v2, ..m1 }, sh, None)
        },
        Operation::DEY => {
            let (m1, v2, sh) = spec_inc_dec_reg(m, m.y, op, true);
            (CpuM { y: v2, ..m1 }, sh, None)
        },
        Operation::INC => spec_inc_dec_mem(m, op, false),
        Operation::INX => {
            let (m1, v2, sh) = spec_inc_dec_reg(m, m.x, op, false);
            (CpuM { x: v2, ..m1 }, sh, None)
        },
        Operation::INY => {
            let (m1, v2, sh) = spec_inc_dec_reg(m, m.y, op, false);
            (CpuM { y: v2, ..m1 }, sh, None)
        },
        Operation::JMP => spec_jmp(m, op),
        Operation::JSR => spec_jsr(m, op),
        Operation::LDA => spec_lda(m, op),
        Operation::LDX => spec_ldx(m, op),
        Operation::LDY => spec_ldy(m, op),
        Operation::LSR => spec_shift_op(m, op, 1),
        Operation::NOP => spec_nop(m, op),
        Operation::ORA => spec_ora(m, op),
        Operation::PHP => spec_php(m, op),
        Operation::PHA => spec_pha(m, op),
        Operation::PLA => spec_pla(m, op),
        Operation::PLP => spec_plp(m, op),
        Operation::ROL => spec_shift_op(m, op, 2),
        Operation::ROR => spec_shift_op(m, op, 3),
        Operation::RTI => spec_rti(m, op),
        Operation::RTS => spec_rts(m, op),
        Operation::SBC => spec_sbc(m, op),
        Operation::STA => spec_store(m, op, m.a),
        Operation::STX => spec_store(m, op, m.x),
        Operation::STY => spec_store(m, op, m.y),
        Operation::LAX => spec_lax(m, op),
        Operation::SAX => spec_sax(m, op),
        Operation::DCP
        | Operation::ISC
        | Operation::SLO
        | Operation::SRE
        | Operation::RRA
        | Operation::RLA => spec_illegal(m, op),
        Operation::CMP => spec_compare(m, op, m.a),
        Operation::CPX => spec_compare(m, op, m.x),
        Operation::CPY => spec_compare(m, op, m.y),
        Operation::BCS => spec_branch(m, op, m.p.carry),
        Operation::BCC => spec_branch(m, op, !m.p.carry),
        Operation::BEQ => spec_branch(m, op, m.p.zero),
        Operation::BNE => spec_branch(m, op, !m.p.zero),
        Operation::BVS => spec_branch(m, op, m.p.overflow),
        Operation::BVC => spec_branch(m, op, !m.p.overflow),
        Operation::BMI => spec_branch(m, op, m.p.negative),
        Operation::BPL => spec_branch(m, op, !m.p.negative),
        Operation::SEC
        | Operation::SED
        | Operation::SEI
        | Operation::CLC
        | Operation::CLD
        | Operation::CLI
        | Operation::CLV => (spec_flag_op(m, op.0), 1, None),
        Operation::TAX
        | Operation::TAY
        | Operation::TXS
        | Operation::TSX
        | Operation::TXA
        | Operation::TYA => (spec_transfer(m, op.0), 1, None),
        _ => (m, 0, Some(Fault::Halt(op.0))),
    }
}

/// One instruction: dispatch, then advance PC by the byte count the
/// operation reports (jumps report 0 and set PC themselves).
pub open spec fn spec_execute(m: CpuM, op: Opcode) -> (CpuM, Option<Fault>) {
    let (m1, sh, f) = spec_dispatch(m, op);
    if f is Some {
        (m1, f)
    } else {
        (CpuM { pc: wadd16(m1.pc, sh), ..m1 }, None)
    }
}

/// How an interpreter step relates to its transition function: the
/// machine ends in the function's state, and the returned advance or
/// fault is the function's.
pub open spec fn op_post(post: CpuM, r: Result<u16, Fault>, out: (CpuM, u16, Option<Fault>)) -> bool {
    &&& post == out.0
    &&& match r {
        Ok(sh) => out.2 is None && sh == out.1,
        Err(e) => out.2 == Some(e),
    }
}

/// One master-clock tick: a pending cycle is absorbed first; then a
/// latched NMI, IRQ or RESET is serviced, in that priority, an IRQ
/// only while interrupts are enabled (a masked IRQ stays latched);
/// otherwise the instruction at PC runs.
pub open spec fn spec_tick(m: CpuM) -> (CpuM, Option<Fault>) {
    if m.remaining_pause > 0 {
        (CpuM { remaining_pause: (m.remaining_pause - 1) as u16, ..m }, None)
    } else if m.nmi {
        (spec_nmi(m), None)
    } else if m.irq && !m.p.interrupt_disable {
        (spec_irq(m), None)
    } else if m.reset {
        (spec_reset(m), None)
    } else {
        let m1 = CpuM {
            instruction_counter: vstd::wrapping::u64_specs::wrapping_add(
                m.instruction_counter,
                1,
            ),
            ..m
        };
        match spec_bus_read(m1.bus, m1.pc) {
            Err(f) => (m1, Some(f)),
            Ok(code) => spec_execute(m1, spec_opcode(code)),
        }
    }
}

} // verus!
