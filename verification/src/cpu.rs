//! The 6502 CPU: registers, status flags, interrupt latches, and the
//! interpreter itself. Every method's effect is stated against the
//! transition functions in `semantics`.

use vstd::prelude::*;

use crate::bus::CpuBus;
use crate::common::Fault;
use crate::join_bytes;
use crate::opcodes::{AddressMode, Opcode, Operation};
use crate::semantics::{CpuM, IRQ_VECTOR, NMI_VECTOR, PHP_MASK, RESET_VECTOR, SIGN_BIT, flags_bits,
    flags_from_bits, high_byte, low_byte, op_post, spec_absolute_lookup, spec_adc, spec_and,
    spec_bit, spec_branch, spec_brk, spec_compare, spec_different_pages, spec_eor, spec_execute,
    spec_flag_op, spec_group1_pause, spec_illegal, spec_illegal_pause, spec_inc_dec_mem,
    spec_inc_dec_reg, spec_increment, spec_interrupt, spec_irq, spec_jmp, spec_jsr, spec_lax,
    spec_lda, spec_ldx, spec_ldy, spec_mem_write, spec_next_byte, spec_nmi, spec_nop,
    spec_operand, spec_ora, spec_page_crossed_penalty, spec_pha, spec_php, spec_pla, spec_plp,
    spec_reset, spec_resolve, spec_rti, spec_rts, spec_sax, spec_sbc, spec_set_pause,
    spec_shift_op, spec_stack_pop, spec_stack_push, spec_store, spec_tick, spec_transfer,
    spec_value_flags};

verus! {

/// The status register P, one field per flag. The decimal flag is
/// stored but unused (this CPU variant omits decimal arithmetic).
#[derive(Clone, Copy, Debug, PartialEq, Eq, Structural)]
pub struct Flags {
    pub carry: bool,
    pub zero: bool,
    pub interrupt_disable: bool,
    pub decimal: bool,
    pub brk: bool,
    pub overflow: bool,
    pub negative: bool,
}

/// The CPU state: the memory bus it owns, registers, interrupt
/// latches, the pending-cycle counter, and the instruction tally.
pub struct Cpu {
    pub bus: CpuBus,
    pub a: u8,
    pub x: u8,
    pub y: u8,
    pub pc: u16,
    pub s: u8,
    pub p: Flags,
    pub nmi: bool,
    pub irq: bool,
    pub reset: bool,
    pub remaining_pause: u16,
    pub instruction_counter: u64,
}

impl View for Cpu {
    type V = CpuM;

    open spec fn view(&self) -> CpuM {
        CpuM {
            bus: self.bus@,
            a: self.a,
            x: self.x,
            y: self.y,
            pc: self.pc,
            s: self.s,
            p: self.p,
            nmi: self.nmi,
            irq: self.irq,
            reset: self.reset,
            remaining_pause: self.remaining_pause,
            instruction_counter: self.instruction_counter,
        }
    }
}

impl Cpu {
    /// The CPU at power-up, owning its bus: registers cleared, S at
    /// 0xFD, interrupts disabled. PC comes from the RESET vector, or
    /// stands at 0x8000 in test mode.
    pub fn new(bus: CpuBus, test_mode: bool) -> (r: Cpu)
        requires
            bus@.wf(),
        ensures
            r@.wf(),
            r@.bus == bus@,
            r@.a == 0 && r@.x == 0 && r@.y == 0,
            r@.s == 0xFD,
            r@.p == (Flags {
                carry: false,
                zero: false,
                interrupt_disable: true,
                decimal: false,
                brk: true,
                overflow: false,
                negative: false,
            }),
            !r@.nmi && !r@.irq && !r@.reset,
            r@.remaining_pause == 0,
            r@.instruction_counter == 0,
            r@.pc == (if test_mode {
                0x8000u16
            } else {
                crate::common::spec_join(
                    crate::bus::bus_get(bus@, (RESET_VECTOR + 1) as u16),
                    crate::bus::bus_get(bus@, RESET_VECTOR),
                )
            }),
    {
        let mut out = Cpu {
            bus,
            a: 0,
            x: 0,
            y: 0,
            pc: 0x8000,
            s: 0xFD,
            p: Flags {
                carry: false,
                zero: false,
                interrupt_disable: true,
                decimal: false,
                brk: true,
                overflow: false,
                negative: false,
            },
            nmi: false,
            irq: false,
            reset: false,
            remaining_pause: 0,
            instruction_counter: 0,
        };
        if !test_mode {
            proof {
                reveal(crate::bus::bus_read_ok);
            }
            let high = out.bus.get_ok(RESET_VECTOR + 1);
            let low = out.bus.get_ok(RESET_VECTOR);
            out.pc = join_bytes(high, low);
        }
        out
    }

    /// Latches a non-maskable interrupt.
    pub fn flag_nmi(&mut self)
        ensures
            final(self)@ == (CpuM { nmi: true, ..old(self)@ }),
    {
        self.nmi = true;
    }

    /// Latches a maskable interrupt.
    pub fn flag_irq(&mut self)
        ensures
            final(self)@ == (CpuM { irq: true, ..old(self)@ }),
    {
        self.irq = true;
    }

    /// Latches a reset.
    pub fn flag_reset(&mut self)
        ensures
            final(self)@ == (CpuM { reset: true, ..old(self)@ }),
    {
        self.reset = true;
    }

    /// The status register as the byte the stack sees.
    fn status_bits(&self) -> (r: u8)
        ensures
            r == flags_bits(self.p),
    {
        let mut b: u8 = 0;
        if self.p.carry {
            b = b + 0x01;
        }
        if self.p.zero {
            b = b + 0x02;
        }
        if self.p.interrupt_disable {
            b = b + 0x04;
        }
        if self.p.decimal {
            b = b + 0x08;
        }
        if self.p.brk {
            b = b + 0x20;
        }
        if self.p.overflow {
            b = b + 0x40;
        }
        if self.p.negative {
            b = b + 0x80;
        }
        b
    }

    /// The status register read back from a byte (bit 4 dropped).
    fn status_from_bits(b: u8) -> (r: Flags)
        ensures
            r == flags_from_bits(b),
    {
        Flags {
            carry: b & 0x01 != 0,
            zero: b & 0x02 != 0,
            interrupt_disable: b & 0x04 != 0,
            decimal: b & 0x08 != 0,
            brk: b & 0x20 != 0,
            overflow: b & 0x40 != 0,
            negative: b & 0x80 != 0,
        }
    }

    /// The byte after the opcode.
    fn next_byte(&self) -> (r: Result<u8, Fault>)
        requires
            self@.wf(),
        ensures
            r == spec_next_byte(self@),
    {
        self.bus.get(self.pc.wrapping_add(1))
    }

    /// Whether the addresses are on different 256-byte pages.
    fn _different_pages(&self, addr1: u16, addr2: u16) -> (r: bool)
        ensures
            r == spec_different_pages(addr1, addr2),
    {
        (addr1 / 256) != (addr2 / 256)
    }

    /// Absolute operand fetch, optionally indexed by `jump`.
    fn absolute_lookup(&self, jump: Option<u8>) -> (r: Result<(u16, bool), Fault>)
        requires
            self@.wf(),
        ensures
            r == spec_absolute_lookup(self@, jump),
    {
        let high = match self.bus.get(self.pc.wrapping_add(2)) {
            Ok(v) => v,
            Err(f) => {
                return Err(f);
            },
        };
        let low = match self.bus.get(self.pc.wrapping_add(1)) {
            Ok(v) => v,
            Err(f) => {
                return Err(f);
            },
        };
        let origin = join_bytes(high, low);
        match jump {
            Some(value) => {
                let dest = origin.wrapping_add(value as u16);
                Ok((dest, self._different_pages(origin, dest)))
            },
            None => Ok((origin, false)),
        }
    }

    /// The address in memory the opcode works on, from PC and the
    /// opcode's address mode, with page-cross detection for the modes
    /// that pay a penalty. Accumulator and Implicit have no address and
    /// yield 0; the handlers treat those modes themselves.
    pub(crate) fn resolve_addr(&self, op: &Opcode) -> (r: Result<(u16, bool), Fault>)
        requires
            self@.wf(),
        ensures
            r == spec_resolve(self@, *op),
    {
        proof {
            reveal(spec_resolve);
        }
        match op.1 {
            AddressMode::Accumulator => Ok((0, false)),
            AddressMode::Implicit => Ok((0, false)),
            AddressMode::Immediate => Ok((self.pc.wrapping_add(1), false)),
            AddressMode::Absolute => self.absolute_lookup(None),
            AddressMode::AbsoluteX => self.absolute_lookup(Some(self.x)),
            AddressMode::AbsoluteY => self.absolute_lookup(Some(self.y)),
            AddressMode::ZeroPage => {
                match self.next_byte() {
                    Ok(arg) => Ok((join_bytes(0x0, arg), false)),
                    Err(f) => Err(f),
                }
            },
            AddressMode::ZeroPageX => {
                match self.next_byte() {
                    Ok(arg) => Ok((join_bytes(0x0, arg.wrapping_add(self.x)), false)),
                    Err(f) => Err(f),
                }
            },
            AddressMode::ZeroPageY => {
                match self.next_byte() {
                    Ok(arg) => Ok((join_bytes(0x0, arg.wrapping_add(self.y)), false)),
                    Err(f) => Err(f),
                }
            },
            AddressMode::Relative => {
                match self.next_byte() {
                    Ok(arg) => {
                        let origin = self.pc;
                        let dest = origin.wrapping_add((arg as i8) as u16);
                        Ok((dest, self._different_pages(origin, dest)))
                    },
                    Err(f) => Err(f),
                }
            },
            AddressMode::Indirect => {
                let high = match self.bus.get(self.pc.wrapping_add(2)) {
                    Ok(v) => v,
                    Err(f) => {
                        return Err(f);
                    },
                };
                let low = match self.bus.get(self.pc.wrapping_add(1)) {
                    Ok(v) => v,
                    Err(f) => {
                        return Err(f);
                    },
                };
                let addr = join_bytes(high, low);
                // the hardware's page-wrap defect: a pointer ending in
                // 0xFF takes its high byte from its own page's start
                let high_byte_addr = if addr % 256 == 0xFF {
                    addr - (addr % 256)
                } else {
                    addr.wrapping_add(1)
                };
                let h = match self.bus.get(high_byte_addr) {
                    Ok(v) => v,
                    Err(f) => {
                        return Err(f);
                    },
                };
                let l = match self.bus.get(addr) {
                    Ok(v) => v,
                    Err(f) => {
                        return Err(f);
                    },
                };
                Ok((join_bytes(h, l), false))
            },
            AddressMode::IndirectX => {
                let operand = match self.next_byte() {
                    Ok(v) => v,
                    Err(f) => {
                        return Err(f);
                    },
                };
                let arg = operand.wrapping_add(self.x);
                let low = match self.bus.get(join_bytes(0x0, arg)) {
                    Ok(v) => v,
                    Err(f) => {
                        return Err(f);
                    },
                };
                let high = match self.bus.get(join_bytes(0x0, arg.wrapping_add(1))) {
                    Ok(v) => v,
                    Err(f) => {
                        return Err(f);
                    },
                };
                Ok((join_bytes(high, low), false))
            },
            AddressMode::IndirectY => {
                let arg = match self.next_byte() {
                    Ok(v) => v,
                    Err(f) => {
                        return Err(f);
                    },
                };
                let low = match self.bus.get(join_bytes(0x0, arg)) {
                    Ok(v) => v,
                    Err(f) => {
                        return Err(f);
                    },
                };
                let high = match self.bus.get(join_bytes(0x0, arg.wrapping_add(1))) {
                    Ok(v) => v,
                    Err(f) => {
                        return Err(f);
                    },
                };
                let origin = join_bytes(high, low);
                let dest = origin.wrapping_add(self.y as u16);
                Ok((dest, self._different_pages(origin, dest)))
            },
        }
    }

    /// Pushes one byte at 0x0100 + S and steps S down.
    fn stack_push(&mut self, datum: u8)
        requires
            old(self)@.wf(),
        ensures
            final(self)@.wf(),
            final(self)@ == spec_stack_push(old(self)@, datum),
    {
        let addr = join_bytes(0x01, self.s);
        proof {
            reveal(crate::bus::bus_write_ok);
            let s = self.s;
            assert(((0x01u16 << 8) | (s as u16)) < 0x2000) by (bit_vector);
        }
        self.bus.set_ok(addr, datum);
        self.s = self.s.wrapping_sub(1);
    }

    /// Steps S up and reads the byte at 0x0100 + S.
    fn stack_pop(&mut self) -> (r: u8)
        requires
            old(self)@.wf(),
        ensures
            final(self)@.wf(),
            (final(self)@, r) == spec_stack_pop(old(self)@),
    {
        self.s = self.s.wrapping_add(1);
        let addr = join_bytes(0x01, self.s);
        proof {
            reveal(crate::bus::bus_read_ok);
            let s = self.s;
            assert(((0x01u16 << 8) | (s as u16)) < 0x2000) by (bit_vector);
        }
        self.bus.get_ok(addr)
    }

    /// Interrupt entry: pushes PC and P (with `b_mask` or'ed in) and
    /// loads PC from the two-byte vector.
    fn interrupt(&mut self, b_mask: u8, vector: u16)
        requires
            old(self)@.wf(),
            0x8000 <= vector < 0xFFFF,
        ensures
            final(self)@.wf(),
            final(self)@ == spec_interrupt(old(self)@, b_mask, vector),
    {
        let pc = self.pc;
        self.stack_push((pc / 256) as u8);
        self.stack_push((pc % 256) as u8);
        let bits = self.status_bits();
        self.stack_push(bits | b_mask);
        proof {
            reveal(crate::bus::bus_read_ok);
        }
        let high = self.bus.get_ok(vector.wrapping_add(1));
        let low = self.bus.get_ok(vector);
        self.pc = join_bytes(high, low);
    }

    /// Services a latched IRQ. The tick dispatch reaches this only
    /// while interrupts are enabled; under InterruptDisable the latch
    /// stays set and the tick proceeds to fetch.
    fn irq(&mut self)
        requires
            old(self)@.wf(),
        ensures
            final(self)@.wf(),
            final(self)@ == spec_irq(old(self)@),
    {
        self.irq = false;
        self.interrupt(PHP_MASK, IRQ_VECTOR);
    }

    /// Services a latched NMI.
    fn nmi(&mut self)
        requires
            old(self)@.wf(),
        ensures
            final(self)@.wf(),
            final(self)@ == spec_nmi(old(self)@),
    {
        self.nmi = false;
        self.interrupt(PHP_MASK, NMI_VECTOR);
    }

    /// Services a latched RESET.
    fn reset(&mut self)
        requires
            old(self)@.wf(),
        ensures
            final(self)@.wf(),
            final(self)@ == spec_reset(old(self)@),
    {
        self.reset = false;
        self.interrupt(PHP_MASK, RESET_VECTOR);
    }

    /// The pending cycles plus the page-cross penalty where it applies.
    fn page_crossed_penalty(&self, pause: u16, op: &Opcode, page_crossed: bool) -> (r: u16)
        requires
            pause < 0xFFFF,
        ensures
            r == spec_page_crossed_penalty(pause, *op, page_crossed),
    {
        if op.3 && page_crossed {
            pause + 1
        } else {
            pause
        }
    }

    /// Sets the pending cycles and returns how many bytes the program
    /// counter advances. The cycle count is one lower than documented:
    /// the dispatching tick is the first cycle.
    fn set_pause_and_return_shift(&mut self, pause: u16, op: &Opcode, page_crossed: bool) -> (r:
        u16)
        requires
            pause < 0xFFFF,
        ensures
            (final(self)@, r) == spec_set_pause(old(self)@, pause, *op, page_crossed),
            final(self)@.bus == old(self)@.bus,
            final(self)@.remaining_pause <= pause + 1,
    {
        proof {
            reveal(crate::semantics::spec_set_pause);
        }
        self.remaining_pause = self.page_crossed_penalty(pause, op, page_crossed);
        op.1.byte_count()
    }

    /// Pending cycles for the ordinary read-operand operations.
    pub(crate) fn _group_1_pause_and_shift(&mut self, op: &Opcode, page_crossed: bool) -> (r: u16)
        ensures
            (final(self)@, r) == spec_group1_pause(old(self)@, *op, page_crossed),
            final(self)@.bus == old(self)@.bus,
    {
        proof {
            reveal(crate::semantics::spec_group1_pause);
        }
        match op.1 {
            AddressMode::Immediate => self.set_pause_and_return_shift(1, op, page_crossed),
            AddressMode::ZeroPage => self.set_pause_and_return_shift(2, op, page_crossed),
            AddressMode::ZeroPageX | AddressMode::ZeroPageY | AddressMode::Absolute => self
                .set_pause_and_return_shift(3, op, page_crossed),
            AddressMode::AbsoluteX | AddressMode::AbsoluteY => self.set_pause_and_return_shift(
                3,
                op,
                page_crossed,
            ),
            AddressMode::IndirectX => self.set_pause_and_return_shift(5, op, page_crossed),
            AddressMode::IndirectY => self.set_pause_and_return_shift(4, op, page_crossed),
            _ => 0,
        }
    }

    /// Pending cycles for the two-step unofficial opcodes.
    fn _illegal_opcodes_pause_and_shift(&mut self, op: &Opcode, page_crossed: bool) -> (r: u16)
        ensures
            (final(self)@, r) == spec_illegal_pause(old(self)@, *op),
            final(self)@.bus == old(self)@.bus,
    {
        proof {
            reveal(crate::semantics::spec_illegal_pause);
        }
        match op.1 {
            AddressMode::Absolute => self.set_pause_and_return_shift(5, op, false),
            AddressMode::AbsoluteX | AddressMode::AbsoluteY => self.set_pause_and_return_shift(
                6,
                op,
                false,
            ),
            AddressMode::ZeroPage => self.set_pause_and_return_shift(4, op, false),
            AddressMode::ZeroPageX => self.set_pause_and_return_shift(5, op, false),
            AddressMode::IndirectX | AddressMode::IndirectY => self.set_pause_and_return_shift(
                7,
                op,
                false,
            ),
            _ => 0,
        }
    }

    /// Negative and Zero from a freshly computed value.
    fn set_value_flags(&mut self, val: u8)
        ensures
            final(self)@ == (CpuM { p: spec_value_flags(old(self)@.p, val), ..old(self)@ }),
    {
        self.p.negative = val & SIGN_BIT != 0;
        self.p.zero = val == 0;
    }

    /// A CPU-driven write; 0x4014 is the OAM DMA side channel.
    fn mem_write(&mut self, addr: u16, val: u8) -> (r: Result<(), Fault>)
        requires
            old(self)@.wf(),
            old(self)@.remaining_pause <= 0xF000,
        ensures
            final(self)@.wf(),
            ({
                let (m2, f) = spec_mem_write(old(self)@, addr, val);
                final(self)@ == m2 && (match r {
                    Ok(u) => f is None,
                    Err(e) => f == Some(e),
                })
            }),
    {
        if addr == 0x4014 {
            let dma = match self.bus.get_page(val) {
                Ok(page) => page,
                Err(f) => {
                    return Err(f);
                },
            };
            self.bus.set_oamdma(dma);
            self.remaining_pause = self.remaining_pause + 513;
            Ok(())
        } else {
            match self.bus.set(addr, val) {
                Ok(u) => Ok(()),
                Err(f) => Err(f),
            }
        }
    }

    /// The Carry flag.
    fn carry(&self) -> (r: bool)
        ensures
            r == self.p.carry,
    {
        self.p.carry
    }

    /// The Zero flag.
    fn zero(&self) -> (r: bool)
        ensures
            r == self.p.zero,
    {
        self.p.zero
    }

    /// The Overflow flag.
    fn overflow(&self) -> (r: bool)
        ensures
            r == self.p.overflow,
    {
        self.p.overflow
    }

    /// The Negative flag.
    fn negative(&self) -> (r: bool)
        ensures
            r == self.p.negative,
    {
        self.p.negative
    }

    /// The InterruptDisable flag.
    fn interrupt_disabled(&self) -> (r: bool)
        ensures
            r == self.p.interrupt_disable,
    {
        self.p.interrupt_disable
    }

    fn set_carry(&mut self, carry: bool)
        ensures
            final(self)@ == (CpuM { p: Flags { carry, ..old(self)@.p }, ..old(self)@ }),
    {
        self.p.carry = carry;
    }

    fn set_zero(&mut self, zero: bool)
        ensures
            final(self)@ == (CpuM { p: Flags { zero, ..old(self)@.p }, ..old(self)@ }),
    {
        self.p.zero = zero;
    }

    fn set_interrupt_disable(&mut self, interrupt_disable: bool)
        ensures
            final(self)@ == (CpuM {
                p: Flags { interrupt_disable, ..old(self)@.p },
                ..old(self)@
            }),
    {
        self.p.interrupt_disable = interrupt_disable;
    }

    fn set_decimal(&mut self, decimal: bool)
        ensures
            final(self)@ == (CpuM { p: Flags { decimal, ..old(self)@.p }, ..old(self)@ }),
    {
        self.p.decimal = decimal;
    }

    fn set_overflow(&mut self, overflow: bool)
        ensures
            final(self)@ == (CpuM { p: Flags { overflow, ..old(self)@.p }, ..old(self)@ }),
    {
        self.p.overflow = overflow;
    }

    fn set_negative(&mut self, negative: bool)
        ensures
            final(self)@ == (CpuM { p: Flags { negative, ..old(self)@.p }, ..old(self)@ }),
    {
        self.p.negative = negative;
    }

    /// ADC: A + operand + C.
    #[verifier::rlimit(100)]
    fn adc(&mut self, op: &Opcode) -> (r: Result<u16, Fault>)
        requires
            old(self)@.wf(),
        ensures
            final(self)@.wf(),
            op_post(final(self)@, r, spec_adc(old(self)@, *op)),
    {
        proof {
            reveal(crate::semantics::spec_adc);
        }
        let (addr, page_crossed) = match self.resolve_addr(op) {
            Ok(t) => t,
            Err(f) => {
                return Err(f);
            },
        };
        let value = match self.bus.get(addr) {
            Ok(v) => v,
            Err(f) => {
                return Err(f);
            },
        };
        let c: i32 = if self.p.carry {
            1
        } else {
            0
        };
        let signed_sum: i32 = crate::common::signed_byte(value) + crate::common::signed_byte(
            self.a,
        ) + c;
        let unsigned_sum: u32 = (self.a as u32) + (value as u32) + (c as u32);
        let first_add = self.a.wrapping_add(value);
        let second_add = first_add.wrapping_add(
            if self.p.carry {
                1
            } else {
                0
            },
        );
        self.a = second_add;
        self.set_carry(unsigned_sum > 255);
        self.set_value_flags(second_add);
        self.set_overflow(signed_sum < -128 || signed_sum > 127);
        Ok(self._group_1_pause_and_shift(op, page_crossed))
    }

    /// SBC: A - operand - (1 - C).
    #[verifier::rlimit(100)]
    fn sbc(&mut self, op: &Opcode) -> (r: Result<u16, Fault>)
        requires
            old(self)@.wf(),
        ensures
            final(self)@.wf(),
            op_post(final(self)@, r, spec_sbc(old(self)@, *op)),
    {
        proof {
            reveal(crate::semantics::spec_sbc);
        }
        let (addr, page_crossed) = match self.resolve_addr(op) {
            Ok(t) => t,
            Err(f) => {
                return Err(f);
            },
        };
        let value = match self.bus.get(addr) {
            Ok(v) => v,
            Err(f) => {
                return Err(f);
            },
        };
        let c: i32 = if self.p.carry {
            1
        } else {
            0
        };
        let signed_sum: i32 = crate::common::signed_byte(self.a) - crate::common::signed_byte(
            value,
        ) - (1 - c);
        let no_borrow: i32 = (self.a as i32) - (value as i32) - (1 - c);
        let first_sub = self.a.wrapping_sub(value);
        let second_sub = first_sub.wrapping_sub((1 - c) as u8);
        self.a = second_sub;
        self.set_carry(no_borrow >= 0);
        self.set_value_flags(second_sub);
        self.set_overflow(signed_sum < -128 || signed_sum > 127);
        Ok(self._group_1_pause_and_shift(op, page_crossed))
    }

    /// AND: A & operand.
    #[verifier::rlimit(50)]
    fn and(&mut self, op: &Opcode) -> (r: Result<u16, Fault>)
        requires
            old(self)@.wf(),
        ensures
            final(self)@.wf(),
            op_post(final(self)@, r, spec_and(old(self)@, *op)),
    {
        proof {
            reveal(crate::semantics::spec_and);
        }
        let (addr, page_crossed) = match self.resolve_addr(op) {
            Ok(t) => t,
            Err(f) => {
                return Err(f);
            },
        };
        let operand = match self.bus.get(addr) {
            Ok(v) => v,
            Err(f) => {
                return Err(f);
            },
        };
        self.a = self.a & operand;
        let a = self.a;
        self.set_value_flags(a);
        Ok(self._group_1_pause_and_shift(op, page_crossed))
    }

    /// ORA: A | operand.
    #[verifier::rlimit(50)]
    fn ora(&mut self, op: &Opcode) -> (r: Result<u16, Fault>)
        requires
            old(self)@.wf(),
        ensures
            final(self)@.wf(),
            op_post(final(self)@, r, spec_ora(old(self)@, *op)),
    {
        proof {
            reveal(crate::semantics::spec_ora);
        }
        let (addr, page_crossed) = match self.resolve_addr(op) {
            Ok(t) => t,
            Err(f) => {
                return Err(f);
            },
        };
        let operand = match self.bus.get(addr) {
            Ok(v) => v,
            Err(f) => {
                return Err(f);
            },
        };
        self.a = self.a | operand;
        let a = self.a;
        self.set_value_flags(a);
        Ok(self._group_1_pause_and_shift(op, page_crossed))
    }

    /// EOR: A ^ operand.
    #[verifier::rlimit(50)]
    fn eor(&mut self, op: &Opcode) -> (r: Result<u16, Fault>)
        requires
            old(self)@.wf(),
        ensures
            final(self)@.wf(),
            op_post(final(self)@, r, spec_eor(old(self)@, *op)),
    {
        proof {
            reveal(crate::semantics::spec_eor);
        }
        let (addr, page_crossed) = match self.resolve_addr(op) {
            Ok(t) => t,
            Err(f) => {
                return Err(f);
            },
        };
        let operand = match self.bus.get(addr) {
            Ok(v) => v,
            Err(f) => {
                return Err(f);
            },
        };
        self.a = self.a ^ operand;
        let a = self.a;
        self.set_value_flags(a);
        Ok(self._group_1_pause_and_shift(op, page_crossed))
    }

    /// Pending cycles shared by the shifts and rotates.
    fn shift_pause(&mut self, op: &Opcode) -> (r: u16)
        ensures
            (final(self)@, r) == crate::semantics::spec_shift_pause(old(self)@, *op),
            final(self)@.bus == old(self)@.bus,
    {
        proof {
            reveal(crate::semantics::spec_shift_pause);
        }
        match op.1 {
            AddressMode::Accumulator => self.set_pause_and_return_shift(1, op, false),
            AddressMode::ZeroPage => self.set_pause_and_return_shift(4, op, false),
            AddressMode::ZeroPageX | AddressMode::Absolute => self.set_pause_and_return_shift(
                5,
                op,
                false,
            ),
            AddressMode::AbsoluteX => self.set_pause_and_return_shift(6, op, false),
            // reached only under two-step unofficial opcodes, which
            // set the pause themselves afterwards
            _ => 0,
        }
    }

    /// The common body of ASL, LSR, ROL and ROR (`kind` as in
    /// `spec_shift_value`).
    #[verifier::rlimit(80)]
    fn shift_op(&mut self, op: &Opcode, kind: u8) -> (r: Result<u16, Fault>)
        requires
            old(self)@.wf(),
            old(self)@.remaining_pause <= 0xF000,
            kind < 4,
        ensures
            final(self)@.wf(),
            op_post(final(self)@, r, spec_shift_op(old(self)@, *op, kind as int)),
    {
        proof {
            reveal(crate::semantics::spec_shift_op);
        }
        if op.1 == AddressMode::Accumulator {
            let value = self.a;
            let out = self.shift_value(kind, value);
            self.a = out;
            Ok(self.shift_pause(op))
        } else {
            let (addr, _page_crossed) = match self.resolve_addr(op) {
                Ok(t) => t,
                Err(f) => {
                    return Err(f);
                },
            };
            let value = match self.bus.get(addr) {
                Ok(v) => v,
                Err(f) => {
                    return Err(f);
                },
            };
            let out = self.shift_value(kind, value);
            match self.mem_write(addr, out) {
                Ok(u) => {},
                Err(f) => {
                    return Err(f);
                },
            }
            Ok(self.shift_pause(op))
        }
    }

    /// ASL on a value: updates Carry and the value flags and returns
    /// the shifted value.
    fn asl_internal(&mut self, value: u8) -> (r: u8)
        ensures
            ({
                let (p2, out) = crate::semantics::spec_shift_value(0, old(self)@.p, value);
                final(self)@ == (CpuM { p: p2, ..old(self)@ }) && r == out
            }),
            final(self)@.bus == old(self)@.bus,
    {
        proof {
            reveal(crate::semantics::spec_shift_value);
        }
        let out = value << 1u8;
        self.set_carry(value & 0x80 != 0);
        self.set_value_flags(out);
        out
    }

    /// LSR on a value: updates Carry and the value flags and returns
    /// the shifted value.
    fn lsr_internal(&mut self, value: u8) -> (r: u8)
        ensures
            ({
                let (p2, out) = crate::semantics::spec_shift_value(1, old(self)@.p, value);
                final(self)@ == (CpuM { p: p2, ..old(self)@ }) && r == out
            }),
            final(self)@.bus == old(self)@.bus,
    {
        proof {
            reveal(crate::semantics::spec_shift_value);
        }
        let out = value >> 1u8;
        self.set_carry(value & 0x01 != 0);
        self.set_value_flags(out);
        out
    }

    /// Applies the shift or rotate to a value, updating Carry and the
    /// value flags, and returns the shifted value.
    #[verifier::rlimit(50)]
    fn shift_value(&mut self, kind: u8, value: u8) -> (r: u8)
        requires
            kind < 4,
        ensures
            ({
                let (p2, out) = crate::semantics::spec_shift_value(kind as int, old(self)@.p, value);
                final(self)@ == (CpuM { p: p2, ..old(self)@ }) && r == out
            }),
            final(self)@.bus == old(self)@.bus,
    {
        if kind == 0 {
            self.asl_internal(value)
        } else if kind == 1 {
            self.lsr_internal(value)
        } else if kind == 2 {
            self.rol_internal(value)
        } else {
            self.ror_internal(value)
        }
    }

    /// ROL on a value: the old Carry enters at bit 0.
    fn rol_internal(&mut self, value: u8) -> (r: u8)
        ensures
            ({
                let (p2, out) = crate::semantics::spec_rol_value(old(self)@.p, value);
                final(self)@ == (CpuM { p: p2, ..old(self)@ }) && r == out
            }),
            ({
                let (p2, out) = crate::semantics::spec_shift_value(2, old(self)@.p, value);
                final(self)@ == (CpuM { p: p2, ..old(self)@ }) && r == out
            }),
            final(self)@.bus == old(self)@.bus,
    {
        proof {
            reveal(crate::semantics::spec_shift_value);
        }
        let old_carry = self.carry();
        self.set_carry(value & 0x80 != 0);
        let mut out = value << 1u8;
        if old_carry {
            out = out ^ 0x01;
        }
        self.set_value_flags(out);
        out
    }

    /// ROR on a value: the old Carry enters at bit 7.
    fn ror_internal(&mut self, value: u8) -> (r: u8)
        ensures
            ({
                let (p2, out) = crate::semantics::spec_ror_value(old(self)@.p, value);
                final(self)@ == (CpuM { p: p2, ..old(self)@ }) && r == out
            }),
            ({
                let (p2, out) = crate::semantics::spec_shift_value(3, old(self)@.p, value);
                final(self)@ == (CpuM { p: p2, ..old(self)@ }) && r == out
            }),
            final(self)@.bus == old(self)@.bus,
    {
        proof {
            reveal(crate::semantics::spec_shift_value);
        }
        let old_carry = self.carry();
        self.set_carry(value & 0x01 != 0);
        let mut out = value >> 1u8;
        if old_carry {
            out = out ^ 0x80;
        }
        self.set_value_flags(out);
        out
    }

    /// ASL: shift left, Carry takes bit 7.
    fn asl(&mut self, op: &Opcode) -> (r: Result<u16, Fault>)
        requires
            old(self)@.wf(),
            old(self)@.remaining_pause <= 0xF000,
        ensures
            final(self)@.wf(),
            op_post(final(self)@, r, spec_shift_op(old(self)@, *op, 0)),
    {
        self.shift_op(op, 0)
    }

    /// LSR: shift right, Carry takes bit 0.
    fn lsr(&mut self, op: &Opcode) -> (r: Result<u16, Fault>)
        requires
            old(self)@.wf(),
            old(self)@.remaining_pause <= 0xF000,
        ensures
            final(self)@.wf(),
            op_post(final(self)@, r, spec_shift_op(old(self)@, *op, 1)),
    {
        self.shift_op(op, 1)
    }

    /// ROL: rotate left through Carry.
    fn rol(&mut self, op: &Opcode) -> (r: Result<u16, Fault>)
        requires
            old(self)@.wf(),
            old(self)@.remaining_pause <= 0xF000,
        ensures
            final(self)@.wf(),
            op_post(final(self)@, r, spec_shift_op(old(self)@, *op, 2)),
    {
        self.shift_op(op, 2)
    }

    /// ROR: rotate right through Carry.
    fn ror(&mut self, op: &Opcode) -> (r: Result<u16, Fault>)
        requires
            old(self)@.wf(),
            old(self)@.remaining_pause <= 0xF000,
        ensures
            final(self)@.wf(),
            op_post(final(self)@, r, spec_shift_op(old(self)@, *op, 3)),
    {
        self.shift_op(op, 3)
    }

    /// BIT: Zero from A & operand, Negative and Overflow from the
    /// operand's top bits.
    #[verifier::rlimit(50)]
    fn bit(&mut self, op: &Opcode) -> (r: Result<u16, Fault>)
        requires
            old(self)@.wf(),
        ensures
            final(self)@.wf(),
            op_post(final(self)@, r, spec_bit(old(self)@, *op)),
    {
        proof {
            reveal(crate::semantics::spec_bit);
        }
        let (addr, page_crossed) = match self.resolve_addr(op) {
            Ok(t) => t,
            Err(f) => {
                return Err(f);
            },
        };
        let value = match self.bus.get(addr) {
            Ok(v) => v,
            Err(f) => {
                return Err(f);
            },
        };
        self.set_negative(value & SIGN_BIT != 0);
        self.set_overflow(value & 0x40 != 0);
        let a = self.a;
        self.set_zero(value & a == 0);
        match op.1 {
            AddressMode::ZeroPage => Ok(self.set_pause_and_return_shift(2, op, page_crossed)),
            AddressMode::Absolute => Ok(self.set_pause_and_return_shift(3, op, page_crossed)),
            _ => Ok(0),
        }
    }

    /// A branch on `branch`: 2 pending cycles, 1 more taken, 3 more
    /// taken across a page boundary.
    #[verifier::rlimit(50)]
    fn branch_op(&mut self, op: &Opcode, branch: bool) -> (r: Result<u16, Fault>)
        requires
            old(self)@.wf(),
        ensures
            final(self)@.wf(),
            op_post(final(self)@, r, spec_branch(old(self)@, *op, branch)),
    {
        proof {
            reveal(crate::semantics::spec_branch);
        }
        self.remaining_pause = 2;
        if branch {
            let (addr, page_crossed) = match self.resolve_addr(op) {
                Ok(t) => t,
                Err(f) => {
                    return Err(f);
                },
            };
            self.pc = addr;
            self.remaining_pause = if page_crossed {
                5
            } else {
                3
            };
        }
        Ok(2)
    }

    /// BRK: steps over the padding byte; with interrupts disabled this
    /// implementation stops there, otherwise it takes the IRQ vector.
    fn brk(&mut self, _op: &Opcode) -> (r: u16)
        requires
            old(self)@.wf(),
        ensures
            final(self)@.wf(),
            op_post(final(self)@, Ok(r), spec_brk(old(self)@, *_op)),
    {
        proof {
            reveal(crate::semantics::spec_brk);
        }
        self.pc = self.pc.wrapping_add(1);
        if self.interrupt_disabled() {
            return 0;
        }
        self.remaining_pause = 6;
        self.interrupt(PHP_MASK, IRQ_VECTOR);
        0
    }

    /// CMP/CPX/CPY against the register value `to`.
    #[verifier::rlimit(50)]
    fn compare_op(&mut self, op: &Opcode, to: u8) -> (r: Result<u16, Fault>)
        requires
            old(self)@.wf(),
        ensures
            final(self)@.wf(),
            op_post(final(self)@, r, spec_compare(old(self)@, *op, to)),
    {
        proof {
            reveal(crate::semantics::spec_compare);
        }
        let (addr, page_crossed) = match self.resolve_addr(op) {
            Ok(t) => t,
            Err(f) => {
                return Err(f);
            },
        };
        let value = match self.bus.get(addr) {
            Ok(v) => v,
            Err(f) => {
                return Err(f);
            },
        };
        self.set_carry(to >= value);
        self.set_zero(to == value);
        let result = to.wrapping_sub(value);
        self.set_negative(result >= 128);
        Ok(self._group_1_pause_and_shift(op, page_crossed))
    }

    /// The shared body of increments and decrements: the new value and
    /// the mode's pending cycles; the caller stores the value.
    fn increment(&mut self, val: u8, op: &Opcode, decrement: bool) -> (r: (u8, u16))
        ensures
            ({
                let (m1, v2, sh) = spec_increment(old(self)@, val, *op, decrement);
                final(self)@ == m1 && r.0 == v2 && r.1 == sh
            }),
            final(self)@.bus == old(self)@.bus,
            final(self)@.remaining_pause <= 7 || final(self)@.remaining_pause == old(
                self,
            )@.remaining_pause,
    {
        proof {
            reveal(crate::semantics::spec_increment);
        }
        let v2 = if decrement {
            val.wrapping_sub(1)
        } else {
            val.wrapping_add(1)
        };
        self.set_value_flags(v2);
        let sh = match op.1 {
            AddressMode::Implicit => self.set_pause_and_return_shift(1, op, false),
            AddressMode::ZeroPage => self.set_pause_and_return_shift(4, op, false),
            AddressMode::ZeroPageX | AddressMode::Absolute => self.set_pause_and_return_shift(
                5,
                op,
                false,
            ),
            AddressMode::AbsoluteX => self.set_pause_and_return_shift(6, op, false),
            // reached only under two-step unofficial opcodes, which
            // set the pause themselves afterwards
            _ => 0,
        };
        (v2, sh)
    }

    /// DEC on memory.
    fn dec(&mut self, op: &Opcode) -> (r: Result<u16, Fault>)
        requires
            old(self)@.wf(),
            old(self)@.remaining_pause <= 0xF000,
        ensures
            final(self)@.wf(),
            op_post(final(self)@, r, spec_inc_dec_mem(old(self)@, *op, true)),
    {
        self.inc_dec_mem(op, true)
    }

    /// INC on memory.
    fn inc(&mut self, op: &Opcode) -> (r: Result<u16, Fault>)
        requires
            old(self)@.wf(),
            old(self)@.remaining_pause <= 0xF000,
        ensures
            final(self)@.wf(),
            op_post(final(self)@, r, spec_inc_dec_mem(old(self)@, *op, false)),
    {
        self.inc_dec_mem(op, false)
    }

    /// DEC or INC on memory.
    #[verifier::rlimit(50)]
    fn inc_dec_mem(&mut self, op: &Opcode, decrement: bool) -> (r: Result<u16, Fault>)
        requires
            old(self)@.wf(),
            old(self)@.remaining_pause <= 0xF000,
        ensures
            final(self)@.wf(),
            op_post(final(self)@, r, spec_inc_dec_mem(old(self)@, *op, decrement)),
    {
        proof {
            reveal(crate::semantics::spec_inc_dec_mem);
        }
        let (addr, _page_crossed) = match self.resolve_addr(op) {
            Ok(t) => t,
            Err(f) => {
                return Err(f);
            },
        };
        let value = match self.bus.get(addr) {
            Ok(v) => v,
            Err(f) => {
                return Err(f);
            },
        };
        let (new_val, shift) = self.increment(value, op, decrement);
        match self.mem_write(addr, new_val) {
            Ok(u) => {},
            Err(f) => {
                return Err(f);
            },
        }
        Ok(shift)
    }

    /// DEX.
    fn dex(&mut self, op: &Opcode) -> (r: u16)
        ensures
            ({
                let (m1, v2, sh) = spec_inc_dec_reg(old(self)@, old(self)@.x, *op, true);
                final(self)@ == (CpuM { x: v2, ..m1 }) && r == sh
            }),
            final(self)@.bus == old(self)@.bus,
    {
        let x = self.x;
        let (new_val, shift) = self.increment(x, op, true);
        self.x = new_val;
        shift
    }

    /// DEY.
    fn dey(&mut self, op: &Opcode) -> (r: u16)
        ensures
            ({
                let (m1, v2, sh) = spec_inc_dec_reg(old(self)@, old(self)@.y, *op, true);
                final(self)@ == (CpuM { y: v2, ..m1 }) && r == sh
            }),
            final(self)@.bus == old(self)@.bus,
    {
        let y = self.y;
        let (new_val, shift) = self.increment(y, op, true);
        self.y = new_val;
        shift
    }

    /// INX.
    fn inx(&mut self, op: &Opcode) -> (r: u16)
        ensures
            ({
                let (m1, v2, sh) = spec_inc_dec_reg(old(self)@, old(self)@.x, *op, false);
                final(self)@ == (CpuM { x: v2, ..m1 }) && r == sh
            }),
            final(self)@.bus == old(self)@.bus,
    {
        let x = self.x;
        let (new_val, shift) = self.increment(x, op, false);
        self.x = new_val;
        shift
    }

    /// INY.
    fn iny(&mut self, op: &Opcode) -> (r: u16)
        ensures
            ({
                let (m1, v2, sh) = spec_inc_dec_reg(old(self)@, old(self)@.y, *op, false);
                final(self)@ == (CpuM { y: v2, ..m1 }) && r == sh
            }),
            final(self)@.bus == old(self)@.bus,
    {
        let y = self.y;
        let (new_val, shift) = self.increment(y, op, false);
        self.y = new_val;
        shift
    }

    /// JMP: PC moves to the resolved address.
    #[verifier::rlimit(50)]
    fn jmp(&mut self, op: &Opcode) -> (r: Result<u16, Fault>)
        requires
            old(self)@.wf(),
        ensures
            final(self)@.wf(),
            op_post(final(self)@, r, spec_jmp(old(self)@, *op)),
    {
        proof {
            reveal(crate::semantics::spec_jmp);
        }
        let (addr, _page_crossed) = match self.resolve_addr(op) {
            Ok(t) => t,
            Err(f) => {
                return Err(f);
            },
        };
        self.pc = addr;
        match op.1 {
            AddressMode::Absolute => self.remaining_pause = 2,
            AddressMode::Indirect => self.remaining_pause = 4,
            _ => {},
        }
        Ok(0)
    }

    /// JSR: pushes PC + 2 high then low and jumps.
    #[verifier::rlimit(50)]
    fn jsr(&mut self, op: &Opcode) -> (r: Result<u16, Fault>)
        requires
            old(self)@.wf(),
        ensures
            final(self)@.wf(),
            op_post(final(self)@, r, spec_jsr(old(self)@, *op)),
    {
        proof {
            reveal(crate::semantics::spec_jsr);
        }
        let (addr, _page_crossed) = match self.resolve_addr(op) {
            Ok(t) => t,
            Err(f) => {
                return Err(f);
            },
        };
        let ret = self.pc.wrapping_add(2);
        self.stack_push((ret / 256) as u8);
        self.stack_push((ret % 256) as u8);
        self.pc = addr;
        self.remaining_pause = 5;
        Ok(0)
    }

    /// LDA.
    #[verifier::rlimit(50)]
    fn lda(&mut self, op: &Opcode) -> (r: Result<u16, Fault>)
        requires
            old(self)@.wf(),
        ensures
            final(self)@.wf(),
            op_post(final(self)@, r, spec_lda(old(self)@, *op)),
    {
        proof {
            reveal(crate::semantics::spec_lda);
        }
        let (addr, page_crossed) = match self.resolve_addr(op) {
            Ok(t) => t,
            Err(f) => {
                return Err(f);
            },
        };
        let value = match self.bus.get(addr) {
            Ok(v) => v,
            Err(f) => {
                return Err(f);
            },
        };
        self.a = value;
        self.set_value_flags(value);
        Ok(self._group_1_pause_and_shift(op, page_crossed))
    }

    /// LDX.
    #[verifier::rlimit(50)]
    fn ldx(&mut self, op: &Opcode) -> (r: Result<u16, Fault>)
        requires
            old(self)@.wf(),
        ensures
            final(self)@.wf(),
            op_post(final(self)@, r, spec_ldx(old(self)@, *op)),
    {
        proof {
            reveal(crate::semantics::spec_ldx);
        }
        let (addr, page_crossed) = match self.resolve_addr(op) {
            Ok(t) => t,
            Err(f) => {
                return Err(f);
            },
        };
        let value = match self.bus.get(addr) {
            Ok(v) => v,
            Err(f) => {
                return Err(f);
            },
        };
        self.x = value;
        self.set_value_flags(value);
        Ok(self._group_1_pause_and_shift(op, page_crossed))
    }

    /// LDY.
    #[verifier::rlimit(50)]
    fn ldy(&mut self, op: &Opcode) -> (r: Result<u16, Fault>)
        requires
            old(self)@.wf(),
        ensures
            final(self)@.wf(),
            op_post(final(self)@, r, spec_ldy(old(self)@, *op)),
    {
        proof {
            reveal(crate::semantics::spec_ldy);
        }
        let (addr, page_crossed) = match self.resolve_addr(op) {
            Ok(t) => t,
            Err(f) => {
                return Err(f);
            },
        };
        let value = match self.bus.get(addr) {
            Ok(v) => v,
            Err(f) => {
                return Err(f);
            },
        };
        self.y = value;
        self.set_value_flags(value);
        Ok(self._group_1_pause_and_shift(op, page_crossed))
    }

    /// LAX: LDA then TAX at the same operand, keeping LDA's cycle
    /// accounting.
    #[verifier::rlimit(50)]
    fn lax(&mut self, op: &Opcode) -> (r: Result<u16, Fault>)
        requires
            old(self)@.wf(),
        ensures
            final(self)@.wf(),
            op_post(final(self)@, r, spec_lax(old(self)@, *op)),
    {
        proof {
            reveal(crate::semantics::spec_lax);
        }
        let shift = match self.lda(op) {
            Ok(s) => s,
            Err(f) => {
                return Err(f);
            },
        };
        self.x = self.a;
        let x = self.x;
        self.set_value_flags(x);
        Ok(shift)
    }

    /// NOP: the documented pending cycles for the slot's mode and the
    /// byte count (no operand read, so no page-cross penalty).
    fn nop(&mut self, op: &Opcode) -> (r: u16)
        ensures
            op_post(final(self)@, Ok(r), spec_nop(old(self)@, *op)),
            final(self)@.bus == old(self)@.bus,
    {
        proof {
            reveal(crate::semantics::spec_nop);
        }
        self.remaining_pause = match op.1 {
            AddressMode::Implicit | AddressMode::Immediate => 1,
            AddressMode::ZeroPage => 2,
            AddressMode::ZeroPageX | AddressMode::Absolute | AddressMode::AbsoluteX => 3,
            _ => 1,
        };
        op.1.byte_count()
    }

    /// PHP: pushes P with bits 4 and 5 forced on.
    fn php(&mut self, _op: &Opcode) -> (r: u16)
        requires
            old(self)@.wf(),
        ensures
            final(self)@.wf(),
            op_post(final(self)@, Ok(r), spec_php(old(self)@, *_op)),
    {
        proof {
            reveal(crate::semantics::spec_php);
        }
        let bits = self.status_bits();
        self.stack_push(bits | PHP_MASK);
        self.remaining_pause = 2;
        1
    }

    /// PHA: pushes A.
    fn pha(&mut self, _op: &Opcode) -> (r: u16)
        requires
            old(self)@.wf(),
        ensures
            final(self)@.wf(),
            op_post(final(self)@, Ok(r), spec_pha(old(self)@, *_op)),
    {
        proof {
            reveal(crate::semantics::spec_pha);
        }
        let a = self.a;
        self.stack_push(a);
        self.remaining_pause = 2;
        1
    }

    /// PLA: pops into A with value flags.
    fn pla(&mut self, _op: &Opcode) -> (r: u16)
        requires
            old(self)@.wf(),
        ensures
            final(self)@.wf(),
            op_post(final(self)@, Ok(r), spec_pla(old(self)@, *_op)),
    {
        proof {
            reveal(crate::semantics::spec_pla);
        }
        let v = self.stack_pop();
        self.a = v;
        self.set_value_flags(v);
        self.remaining_pause = 3;
        1
    }

    /// PLP: pops into P with the pushed mask bits cleared.
    fn plp(&mut self, _op: &Opcode) -> (r: u16)
        requires
            old(self)@.wf(),
        ensures
            final(self)@.wf(),
            op_post(final(self)@, Ok(r), spec_plp(old(self)@, *_op)),
    {
        proof {
            reveal(crate::semantics::spec_plp);
        }
        let v = self.stack_pop();
        self.p = Cpu::status_from_bits(v & 0xCF);
        self.remaining_pause = 3;
        1
    }

    /// RTS: returns to the pushed address plus one byte of advance.
    fn rts(&mut self, _op: &Opcode) -> (r: u16)
        requires
            old(self)@.wf(),
            old(self)@.remaining_pause <= 0xFFFA,
        ensures
            final(self)@.wf(),
            op_post(final(self)@, Ok(r), spec_rts(old(self)@, *_op)),
    {
        proof {
            reveal(crate::semantics::spec_rts);
        }
        let low = self.stack_pop();
        let high = self.stack_pop();
        self.pc = join_bytes(high, low);
        self.remaining_pause = self.remaining_pause + 5;
        1
    }

    /// RTI: pops P, then returns without RTS's byte of advance.
    fn rti(&mut self, op: &Opcode) -> (r: u16)
        requires
            old(self)@.wf(),
            old(self)@.remaining_pause <= 0xFFF4,
        ensures
            final(self)@.wf(),
            op_post(final(self)@, Ok(r), spec_rti(old(self)@, *op)),
    {
        proof {
            reveal(crate::semantics::spec_rti);
            reveal(crate::semantics::spec_rts);
        }
        let v = self.stack_pop();
        self.p = Cpu::status_from_bits(v);
        self.remaining_pause = self.remaining_pause + 1;
        let _ = self.rts(op);
        0
    }

    /// SAX: stores A & X.
    #[verifier::rlimit(50)]
    fn sax(&mut self, op: &Opcode) -> (r: Result<u16, Fault>)
        requires
            old(self)@.wf(),
            old(self)@.remaining_pause <= 0xF000,
        ensures
            final(self)@.wf(),
            op_post(final(self)@, r, spec_sax(old(self)@, *op)),
    {
        proof {
            reveal(crate::semantics::spec_sax);
        }
        let (addr, _page_crossed) = match self.resolve_addr(op) {
            Ok(t) => t,
            Err(f) => {
                return Err(f);
            },
        };
        let value = self.a & self.x;
        match self.mem_write(addr, value) {
            Ok(u) => {},
            Err(f) => {
                return Err(f);
            },
        }
        match op.1 {
            AddressMode::ZeroPage => Ok(self.set_pause_and_return_shift(2, op, false)),
            AddressMode::Absolute | AddressMode::ZeroPageY => Ok(
                self.set_pause_and_return_shift(3, op, false),
            ),
            AddressMode::IndirectX => Ok(self.set_pause_and_return_shift(5, op, false)),
            _ => Ok(0),
        }
    }

    /// STA/STX/STY's shared body: stores `value`.
    #[verifier::rlimit(50)]
    fn store(&mut self, op: &Opcode, value: u8) -> (r: Result<u16, Fault>)
        requires
            old(self)@.wf(),
            old(self)@.remaining_pause <= 0xF000,
        ensures
            final(self)@.wf(),
            op_post(final(self)@, r, spec_store(old(self)@, *op, value)),
    {
        proof {
            reveal(crate::semantics::spec_store);
        }
        let (addr, _page_crossed) = match self.resolve_addr(op) {
            Ok(t) => t,
            Err(f) => {
                return Err(f);
            },
        };
        match self.mem_write(addr, value) {
            Ok(u) => {},
            Err(f) => {
                return Err(f);
            },
        }
        match op.1 {
            AddressMode::ZeroPage => Ok(self.set_pause_and_return_shift(2, op, false)),
            AddressMode::ZeroPageX | AddressMode::ZeroPageY | AddressMode::Absolute => Ok(
                self.set_pause_and_return_shift(3, op, false),
            ),
            AddressMode::AbsoluteX | AddressMode::AbsoluteY => Ok(
                self.set_pause_and_return_shift(4, op, false),
            ),
            AddressMode::IndirectX | AddressMode::IndirectY => Ok(
                self.set_pause_and_return_shift(5, op, false),
            ),
            _ => Ok(0),
        }
    }

    /// STA.
    fn sta(&mut self, op: &Opcode) -> (r: Result<u16, Fault>)
        requires
            old(self)@.wf(),
            old(self)@.remaining_pause <= 0xF000,
        ensures
            final(self)@.wf(),
            op_post(final(self)@, r, spec_store(old(self)@, *op, old(self)@.a)),
    {
        let a = self.a;
        self.store(op, a)
    }

    /// STX.
    fn stx(&mut self, op: &Opcode) -> (r: Result<u16, Fault>)
        requires
            old(self)@.wf(),
            old(self)@.remaining_pause <= 0xF000,
        ensures
            final(self)@.wf(),
            op_post(final(self)@, r, spec_store(old(self)@, *op, old(self)@.x)),
    {
        let x = self.x;
        self.store(op, x)
    }

    /// STY.
    fn sty(&mut self, op: &Opcode) -> (r: Result<u16, Fault>)
        requires
            old(self)@.wf(),
            old(self)@.remaining_pause <= 0xF000,
        ensures
            final(self)@.wf(),
            op_post(final(self)@, r, spec_store(old(self)@, *op, old(self)@.y)),
    {
        let y = self.y;
        self.store(op, y)
    }

    fn tax(&mut self)
        ensures
            final(self)@ == spec_transfer(old(self)@, Operation::TAX),
            final(self)@.bus == old(self)@.bus,
    {
        proof {
            reveal(crate::semantics::spec_transfer);
        }
        self.x = self.a;
        self.p.negative = self.x & SIGN_BIT != 0;
        self.p.zero = self.x == 0;
        self.remaining_pause = 1;
    }

    fn tay(&mut self)
        ensures
            final(self)@ == spec_transfer(old(self)@, Operation::TAY),
            final(self)@.bus == old(self)@.bus,
    {
        proof {
            reveal(crate::semantics::spec_transfer);
        }
        self.y = self.a;
        self.p.negative = self.y & SIGN_BIT != 0;
        self.p.zero = self.y == 0;
        self.remaining_pause = 1;
    }

    fn txs(&mut self)
        ensures
            final(self)@ == spec_transfer(old(self)@, Operation::TXS),
            final(self)@.bus == old(self)@.bus,
    {
        proof {
            reveal(crate::semantics::spec_transfer);
        }
        self.s = self.x;
        self.remaining_pause = 1;
    }

    fn tsx(&mut self)
        ensures
            final(self)@ == spec_transfer(old(self)@, Operation::TSX),
            final(self)@.bus == old(self)@.bus,
    {
        proof {
            reveal(crate::semantics::spec_transfer);
        }
        self.x = self.s;
        self.p.negative = self.x & SIGN_BIT != 0;
        self.p.zero = self.x == 0;
        self.remaining_pause = 1;
    }

    fn txa(&mut self)
        ensures
            final(self)@ == spec_transfer(old(self)@, Operation::TXA),
            final(self)@.bus == old(self)@.bus,
    {
        proof {
            reveal(crate::semantics::spec_transfer);
        }
        self.a = self.x;
        self.p.negative = self.a & SIGN_BIT != 0;
        self.p.zero = self.a == 0;
        self.remaining_pause = 1;
    }

    fn tya(&mut self)
        ensures
            final(self)@ == spec_transfer(old(self)@, Operation::TYA),
            final(self)@.bus == old(self)@.bus,
    {
        proof {
            reveal(crate::semantics::spec_transfer);
        }
        self.a = self.y;
        self.p.negative = self.a & SIGN_BIT != 0;
        self.p.zero = self.a == 0;
        self.remaining_pause = 1;
    }

    /// A register-to-register transfer.
    fn transfer_op(&mut self, oper: Operation) -> (r: u16)
        ensures
            final(self)@ == spec_transfer(old(self)@, oper),
            r == 1,
            final(self)@.bus == old(self)@.bus,
    {
        match oper {
            Operation::TAX => self.tax(),
            Operation::TAY => self.tay(),
            Operation::TXS => self.txs(),
            Operation::TSX => self.tsx(),
            Operation::TXA => self.txa(),
            Operation::TYA => self.tya(),
            _ => {
                proof {
                    reveal(crate::semantics::spec_transfer);
                }
                self.remaining_pause = 1;
            },
        }
        1
    }

    fn flag_sec(&mut self)
        ensures
            final(self)@ == spec_flag_op(old(self)@, Operation::SEC),
            final(self)@.bus == old(self)@.bus,
    {
        proof {
            reveal(crate::semantics::spec_flag_op);
        }
        self.p.carry = true;
        self.remaining_pause = 1;
    }

    fn flag_sed(&mut self)
        ensures
            final(self)@ == spec_flag_op(old(self)@, Operation::SED),
            final(self)@.bus == old(self)@.bus,
    {
        proof {
            reveal(crate::semantics::spec_flag_op);
        }
        self.p.decimal = true;
        self.remaining_pause = 1;
    }

    fn flag_sei(&mut self)
        ensures
            final(self)@ == spec_flag_op(old(self)@, Operation::SEI),
            final(self)@.bus == old(self)@.bus,
    {
        proof {
            reveal(crate::semantics::spec_flag_op);
        }
        self.p.interrupt_disable = true;
        self.remaining_pause = 1;
    }

    fn flag_clc(&mut self)
        ensures
            final(self)@ == spec_flag_op(old(self)@, Operation::CLC),
            final(self)@.bus == old(self)@.bus,
    {
        proof {
            reveal(crate::semantics::spec_flag_op);
        }
        self.p.carry = false;
        self.remaining_pause = 1;
    }

    fn flag_cld(&mut self)
        ensures
            final(self)@ == spec_flag_op(old(self)@, Operation::CLD),
            final(self)@.bus == old(self)@.bus,
    {
        proof {
            reveal(crate::semantics::spec_flag_op);
        }
        self.p.decimal = false;
        self.remaining_pause = 1;
    }

    fn flag_cli(&mut self)
        ensures
            final(self)@ == spec_flag_op(old(self)@, Operation::CLI),
            final(self)@.bus == old(self)@.bus,
    {
        proof {
            reveal(crate::semantics::spec_flag_op);
        }
        self.p.interrupt_disable = false;
        self.remaining_pause = 1;
    }

    fn flag_clv(&mut self)
        ensures
            final(self)@ == spec_flag_op(old(self)@, Operation::CLV),
            final(self)@.bus == old(self)@.bus,
    {
        proof {
            reveal(crate::semantics::spec_flag_op);
        }
        self.p.overflow = false;
        self.remaining_pause = 1;
    }

    /// A flag set or clear.
    fn flag_op(&mut self, oper: Operation) -> (r: u16)
        ensures
            final(self)@ == spec_flag_op(old(self)@, oper),
            r == 1,
            final(self)@.bus == old(self)@.bus,
    {
        match oper {
            Operation::SEC => self.flag_sec(),
            Operation::SED => self.flag_sed(),
            Operation::SEI => self.flag_sei(),
            Operation::CLC => self.flag_clc(),
            Operation::CLD => self.flag_cld(),
            Operation::CLI => self.flag_cli(),
            Operation::CLV => self.flag_clv(),
            _ => {
                proof {
                    reveal(crate::semantics::spec_flag_op);
                }
                self.remaining_pause = 1;
            },
        }
        1
    }

    /// A two-step unofficial opcode: both steps at the same resolved
    /// address, then the centralized pause override.
    #[verifier::rlimit(100)]
    fn illegal_op(&mut self, op: &Opcode) -> (r: Result<u16, Fault>)
        requires
            old(self)@.wf(),
            old(self)@.remaining_pause <= 0xF000,
        ensures
            final(self)@.wf(),
            op_post(final(self)@, r, spec_illegal(old(self)@, *op)),
    {
        proof {
            reveal(crate::semantics::spec_illegal);
        }
        match op.0 {
            Operation::DCP => {
                match self.dec(op) {
                    Ok(u) => {},
                    Err(f) => {
                        return Err(f);
                    },
                }
                let a = self.a;
                match self.compare_op(op, a) {
                    Ok(u) => {},
                    Err(f) => {
                        return Err(f);
                    },
                }
            },
            Operation::ISC => {
                match self.inc(op) {
                    Ok(u) => {},
                    Err(f) => {
                        return Err(f);
                    },
                }
                match self.sbc(op) {
                    Ok(u) => {},
                    Err(f) => {
                        return Err(f);
                    },
                }
            },
            Operation::SLO => {
                match self.asl(op) {
                    Ok(u) => {},
                    Err(f) => {
                        return Err(f);
                    },
                }
                match self.ora(op) {
                    Ok(u) => {},
                    Err(f) => {
                        return Err(f);
                    },
                }
            },
            Operation::SRE => {
                match self.lsr(op) {
                    Ok(u) => {},
                    Err(f) => {
                        return Err(f);
                    },
                }
                match self.eor(op) {
                    Ok(u) => {},
                    Err(f) => {
                        return Err(f);
                    },
                }
            },
            Operation::RRA => {
                match self.ror(op) {
                    Ok(u) => {},
                    Err(f) => {
                        return Err(f);
                    },
                }
                match self.adc(op) {
                    Ok(u) => {},
                    Err(f) => {
                        return Err(f);
                    },
                }
            },
            Operation::RLA => {
                match self.rol(op) {
                    Ok(u) => {},
                    Err(f) => {
                        return Err(f);
                    },
                }
                match self.and(op) {
                    Ok(u) => {},
                    Err(f) => {
                        return Err(f);
                    },
                }
            },
            _ => {},
        }
        self.remaining_pause = 0;
        Ok(self._illegal_opcodes_pause_and_shift(op, false))
    }

    /// The operand-resolving half of the dispatch: loads, stores,
    /// arithmetic, logic, shifts, compares and the two-step unofficial
    /// opcodes.
    #[verifier::rlimit(100)]
    fn dispatch_mem(&mut self, op: &Opcode) -> (r: Result<u16, Fault>)
        requires
            old(self)@.wf(),
            old(self)@.remaining_pause == 0,
            crate::semantics::is_mem_op(op.0),
        ensures
            final(self)@.wf(),
            op_post(final(self)@, r, crate::semantics::spec_dispatch(old(self)@, *op)),
    {
        proof {
            reveal(crate::semantics::spec_dispatch);
        }
        match op.0 {
            Operation::ADC => self.adc(op),
            Operation::AND => self.and(op),
            Operation::EOR => self.eor(op),
            Operation::ORA => self.ora(op),
            Operation::SBC => self.sbc(op),
            Operation::BIT => self.bit(op),
            Operation::LDA => self.lda(op),
            Operation::LDX => self.ldx(op),
            Operation::LDY => self.ldy(op),
            Operation::LAX => self.lax(op),
            Operation::SAX => self.sax(op),
            Operation::DEC => self.dec(op),
            Operation::INC => self.inc(op),
            Operation::ASL => self.asl(op),
            Operation::LSR => self.lsr(op),
            Operation::ROL => self.rol(op),
            Operation::ROR => self.ror(op),
            Operation::STA => self.sta(op),
            Operation::STX => self.stx(op),
            Operation::STY => self.sty(op),
            Operation::DCP
            | Operation::ISC
            | Operation::SLO
            | Operation::SRE
            | Operation::RRA
            | Operation::RLA => self.illegal_op(op),
            Operation::CMP => {
                let a = self.a;
                self.compare_op(op, a)
            },
            Operation::CPX => {
                let x = self.x;
                self.compare_op(op, x)
            },
            Operation::CPY => {
                let y = self.y;
                self.compare_op(op, y)
            },
            _ => Ok(0),  // excluded by is_mem_op
        }
    }

    /// The other half of the dispatch: control flow, stack, register
    /// and flag operations, and the operations this interpreter halts
    /// on.
    #[verifier::rlimit(100)]
    fn dispatch_ctrl(&mut self, op: &Opcode) -> (r: Result<u16, Fault>)
        requires
            old(self)@.wf(),
            old(self)@.remaining_pause == 0,
            !crate::semantics::is_mem_op(op.0),
        ensures
            final(self)@.wf(),
            op_post(final(self)@, r, crate::semantics::spec_dispatch(old(self)@, *op)),
    {
        proof {
            reveal(crate::semantics::spec_dispatch);
        }
        match op.0 {
            Operation::BRK => Ok(self.brk(op)),
            Operation::DEX => Ok(self.dex(op)),
            Operation::DEY => Ok(self.dey(op)),
            Operation::INX => Ok(self.inx(op)),
            Operation::INY => Ok(self.iny(op)),
            Operation::JMP => self.jmp(op),
            Operation::JSR => self.jsr(op),
            Operation::NOP => Ok(self.nop(op)),
            Operation::PHP => Ok(self.php(op)),
            Operation::PHA => Ok(self.pha(op)),
            Operation::PLA => Ok(self.pla(op)),
            Operation::PLP => Ok(self.plp(op)),
            Operation::RTI => Ok(self.rti(op)),
            Operation::RTS => Ok(self.rts(op)),
            Operation::BCS => {
                let c = self.carry();
                self.branch_op(op, c)
            },
            Operation::BCC => {
                let c = self.carry();
                self.branch_op(op, !c)
            },
            Operation::BEQ => {
                let z = self.zero();
                self.branch_op(op, z)
            },
            Operation::BNE => {
                let z = self.zero();
                self.branch_op(op, !z)
            },
            Operation::BVS => {
                let v = self.overflow();
                self.branch_op(op, v)
            },
            Operation::BVC => {
                let v = self.overflow();
                self.branch_op(op, !v)
            },
            Operation::BMI => {
                let n = self.negative();
                self.branch_op(op, n)
            },
            Operation::BPL => {
                let n = self.negative();
                self.branch_op(op, !n)
            },
            Operation::SEC
            | Operation::SED
            | Operation::SEI
            | Operation::CLC
            | Operation::CLD
            | Operation::CLI
            | Operation::CLV => Ok(self.flag_op(op.0)),
            Operation::TAX
            | Operation::TAY
            | Operation::TXS
            | Operation::TSX
            | Operation::TXA
            | Operation::TYA => Ok(self.transfer_op(op.0)),
            _ => Err(Fault::Halt(op.0)),
        }
    }

    /// Executes one decoded opcode, updating all state, and advances PC
    /// by the operation's byte count (jumps advance themselves).
    #[verifier::rlimit(50)]
    pub fn execute_opcode(&mut self, op: &Opcode) -> (r: Result<(), Fault>)
        requires
            old(self)@.wf(),
            old(self)@.remaining_pause == 0,
        ensures
            final(self)@.wf(),
            ({
                let (m2, f) = spec_execute(old(self)@, *op);
                final(self)@ == m2 && (match r {
                    Ok(u) => f is None,
                    Err(e) => f == Some(e),
                })
            }),
    {
        let is_mem = match op.0 {
            Operation::ADC | Operation::AND | Operation::ASL | Operation::BIT | Operation::EOR
            | Operation::DEC | Operation::INC | Operation::LSR | Operation::ORA
            | Operation::ROL | Operation::ROR | Operation::SBC | Operation::STA
            | Operation::STX | Operation::STY | Operation::LDA | Operation::LDX
            | Operation::LDY | Operation::LAX | Operation::SAX | Operation::DCP
            | Operation::ISC | Operation::SLO | Operation::SRE | Operation::RRA
            | Operation::RLA | Operation::CMP | Operation::CPX | Operation::CPY => true,
            _ => false,
        };
        let shift: u16 = if is_mem {
            match self.dispatch_mem(op) {
                Ok(s) => s,
                Err(f) => {
                    return Err(f);
                },
            }
        } else {
            match self.dispatch_ctrl(op) {
                Ok(s) => s,
                Err(f) => {
                    return Err(f);
                },
            }
        };
        self.pc = self.pc.wrapping_add(shift);
        Ok(())
    }

    /// One master-clock tick: absorbs a pending cycle, or services a
    /// latched interrupt (NMI before IRQ before RESET; a masked IRQ
    /// stays latched), or executes the instruction at PC.
    #[verifier::rlimit(50)]
    pub fn tick(&mut self) -> (r: Result<(), Fault>)
        requires
            old(self)@.wf(),
        ensures
            final(self)@.wf(),
            ({
                let (m2, f) = spec_tick(old(self)@);
                final(self)@ == m2 && (match r {
                    Ok(u) => f is None,
                    Err(e) => f == Some(e),
                })
            }),
    {
        if self.remaining_pause > 0 {
            self.remaining_pause = self.remaining_pause - 1;
            return Ok(());
        } else if self.nmi {
            self.nmi();
            return Ok(());
        } else if self.irq && !self.p.interrupt_disable {
            self.irq();
            return Ok(());
        } else if self.reset {
            self.reset();
            return Ok(());
        }
        self.instruction_counter = self.instruction_counter.wrapping_add(1);
        let code = match self.bus.get(self.pc) {
            Ok(v) => v,
            Err(f) => {
                return Err(f);
            },
        };
        let op = crate::opcodes::resolve(code);
        self.execute_opcode(&op)
    }
}

} // verus!
