//! General properties of the core, stated over the transition
//! functions in `semantics` and proved once and for all.

use vstd::prelude::*;

use crate::apu::{ApuM, spec_apu_tick, spec_current_sample, spec_set_enabled};
use crate::bus::bus_get;
use crate::common::{spec_join, wsub8};
use crate::cpu::Flags;
use crate::mapper::{MapperM, NametableMirror, RomSize, spec_get_cpu, spec_get_ppu};
use crate::opcodes::{AddressMode, Opcode, Operation};
use crate::semantics::{CpuM, spec_branch, spec_flag_op, spec_lda, spec_operand,
    spec_page_crossed_penalty, spec_resolve, spec_stack_pop, spec_stack_push, spec_value_flags};

verus! {

/// Whenever an operation sets the value flags from a result, Negative
/// equals bit 7 of that result and Zero holds exactly of zero.
pub proof fn lemma_value_flags(p: Flags, v: u8)
    ensures
        spec_value_flags(p, v).negative == (v >= 128),
        spec_value_flags(p, v).zero == (v == 0),
        spec_value_flags(p, v).carry == p.carry,
        spec_value_flags(p, v).interrupt_disable == p.interrupt_disable,
        spec_value_flags(p, v).decimal == p.decimal,
        spec_value_flags(p, v).brk == p.brk,
        spec_value_flags(p, v).overflow == p.overflow,
{
    assert((v & 0x80 != 0) == (v >= 128)) by (bit_vector);
}

/// After a load, Negative is bit 7 of the loaded accumulator and Zero
/// its nullity: the value flags track the register last written.
pub proof fn lemma_lda_value_flags(m: CpuM, op: Opcode)
    ensures
        (match spec_operand(m, op) {
            Ok((addr, crossed, v)) => {
                let m2 = spec_lda(m, op).0;
                m2.a == v && m2.p.negative == (m2.a >= 128) && m2.p.zero == (m2.a == 0)
            },
            Err(f) => true,
        }),
{
    reveal(crate::semantics::spec_lda);
    reveal(crate::semantics::spec_group1_pause);
    reveal(crate::semantics::spec_set_pause);
    match spec_operand(m, op) {
        Ok((addr, crossed, v)) => {
            lemma_value_flags(m.p, v);
        },
        Err(f) => {},
    }
}

/// A push writes the pushed byte at 0x0100 + S, steps S down within
/// its byte range, and touches nothing else: every read whose RAM cell
/// differs, and the mapper, APU and sprite memory, are unchanged.
pub proof fn lemma_stack_push_effect(m: CpuM, v: u8)
    requires
        m.wf(),
    ensures
        spec_stack_push(m, v).s == wsub8(m.s, 1),
        bus_get(spec_stack_push(m, v).bus, spec_join(0x01, m.s)) == v,
        spec_stack_push(m, v).bus.mapper == m.bus.mapper,
        spec_stack_push(m, v).bus.apu == m.bus.apu,
        spec_stack_push(m, v).bus.oam == m.bus.oam,
        forall|a: u16|
            a & 0x07FF != spec_join(0x01, m.s) & 0x07FF ==> bus_get(
                spec_stack_push(m, v).bus,
                a,
            ) == bus_get(m.bus, a),
{
    reveal(crate::bus::bus_set);
    reveal(crate::bus::bus_get);
    let s = m.s;
    assert(((0x01u16 << 8) | (s as u16)) < 0x2000) by (bit_vector);
    assert((((0x01u16 << 8) | (s as u16)) & 0x07FF) < 0x800) by (bit_vector);
    assert forall|a: u16|
        a & 0x07FF != spec_join(0x01, m.s) & 0x07FF implies bus_get(
        spec_stack_push(m, v).bus,
        a,
    ) == bus_get(m.bus, a) by {
        assert((a & 0x07FF) < 0x800) by (bit_vector);
    }
}

/// The stack pointer is a byte, so it stays within 0x00..=0xFF, and a
/// push followed by a pop is the identity in isolation: the pop
/// returns the pushed byte and restores S.
pub proof fn lemma_stack_push_pop(m: CpuM, v: u8)
    requires
        m.wf(),
    ensures
        ({
            let m1 = spec_stack_push(m, v);
            let (m2, r) = spec_stack_pop(m1);
            r == v && m2.s == m.s && m2.bus == m1.bus && m2.pc == m.pc
        }),
{
    reveal(crate::bus::bus_set);
    reveal(crate::bus::bus_get);
    let s = m.s;
    assert(((0x01u16 << 8) | (s as u16)) < 0x2000) by (bit_vector);
    assert((((0x01u16 << 8) | (s as u16)) & 0x07FF) < 0x800) by (bit_vector);
}

/// For every mapper state, the nametable shadow at 0x3000 + k reads
/// the same byte as 0x2000 + k, on the addresses where the mirroring
/// function is the identity (the whole first nametable under both
/// modes, and the second physical region as well under vertical
/// mirroring; a mirrored slot reads its physical source instead).
pub proof fn lemma_nametable_shadow(m: MapperM, k: u16)
    requires
        m.wf(),
        k < 0x0F00,
        m.nametable_mirror is Horizontal ==> k < 0x0400,
        m.nametable_mirror is Vertical ==> k < 0x0800,
    ensures
        spec_get_ppu(m, (0x3000 + k) as u16) == spec_get_ppu(m, (0x2000 + k) as u16),
{
    assert(k < 0x0400 ==> ((((0x2000 + k) as u16) & 0x03FF) | ((((0x2000 + k) as u16) & 0x0800)
        >> 1)) == k) by (bit_vector);
    assert(k < 0x0800 ==> (((0x2000 + k) as u16) & 0x07FF) == k) by (bit_vector);
}

/// Round trip through the cartridge: on a 32 KiB NROM, every PRG-ROM
/// byte is read back unchanged through CPU space.
pub proof fn lemma_prg_rom_roundtrip(m: MapperM, k: u16)
    requires
        m.wf(),
        m.rom_size is ThirtyTwo,
        k < 0x8000,
    ensures
        spec_get_cpu(m, (0x8000 + k) as u16) == m.prg_rom[k as int],
{
}

/// On a 16 KiB NROM the upper half of CPU space mirrors the lower.
pub proof fn lemma_prg_rom_mirror(m: MapperM, k: u16)
    requires
        m.wf(),
        m.rom_size is Sixteen,
        k < 0x4000,
    ensures
        spec_get_cpu(m, (0xC000 + k) as u16) == spec_get_cpu(m, (0x8000 + k) as u16),
{
}

/// Two consecutive CLC instructions leave P exactly where one does.
pub proof fn lemma_clc_idempotent(m: CpuM)
    ensures
        spec_flag_op(spec_flag_op(m, Operation::CLC), Operation::CLC).p == spec_flag_op(
            m,
            Operation::CLC,
        ).p,
{
    reveal(crate::semantics::spec_flag_op);
}

/// Disabling pulse 1 through the channel-enable register zeroes its
/// length counter, clears its enable bit, and forces its next sample
/// contribution to 0.
pub proof fn lemma_disable_forces_silence(a: ApuM, v: u8)
    requires
        v & 0x01 == 0,
    ensures
        spec_set_enabled(a, v).pulse1.length_counter.length == 0,
        spec_set_enabled(a, v).enabled & 0x01 == 0,
        spec_current_sample(spec_set_enabled(a, v)).pulse1 == 0,
{
    assert((v & 0x1F) & 0x01 == 0x00u8) by (bit_vector)
        requires
            v & 0x01 == 0,
    ;
}

/// While pulse 1 stays disabled, a tick keeps it disabled and every
/// sample the tick emits contributes 0 for it.
pub proof fn lemma_disabled_stays_silent(a: ApuM)
    requires
        a.enabled & 0x01 == 0,
    ensures
        spec_apu_tick(a).enabled == a.enabled,
        spec_apu_tick(a).samples.len() >= a.samples.len(),
        forall|i: int|
            0 <= i < a.samples.len() ==> spec_apu_tick(a).samples[i] == a.samples[i],
        forall|i: int|
            a.samples.len() <= i < spec_apu_tick(a).samples.len() ==> spec_apu_tick(
                a,
            ).samples[i].pulse1 == 0,
{
}

/// The page-cross penalty in general: exactly the opcodes whose table
/// entry carries the penalty flag pay one extra cycle, and only when
/// the resolution crossed a 256-byte page.
pub proof fn lemma_page_cross_penalty(pause: u16, op: Opcode, crossed: bool)
    requires
        pause < 0xFFFF,
    ensures
        spec_page_crossed_penalty(pause, op, crossed) == (if op.3 && crossed {
            pause + 1
        } else {
            pause as int
        }),
{
}

/// An operation that pays the page-cross penalty through the IndirectY
/// mode leaves one more pending cycle when the operand's base page was
/// crossed: 5 instead of 4 after the dispatching tick, matching the
/// documented 6-against-5 cycle cost.
pub proof fn lemma_indirect_y_penalty(m: CpuM, op: Opcode)
    requires
        op.1 is IndirectY,
        op.3,
    ensures
        (match spec_operand(m, op) {
            Ok((addr, crossed, v)) => spec_lda(m, op).0.remaining_pause == (if crossed {
                5int
            } else {
                4int
            }),
            Err(f) => true,
        }),
{
    reveal(crate::semantics::spec_lda);
    reveal(crate::semantics::spec_group1_pause);
    reveal(crate::semantics::spec_set_pause);
}

/// A branch not taken leaves 2 pending cycles; a taken branch leaves
/// 3, and 5 when the target lies on another page: the page crossing
/// costs the extra cycles.
pub proof fn lemma_branch_page_penalty(m: CpuM, op: Opcode)
    ensures
        spec_branch(m, op, false).0.remaining_pause == 2,
        (match spec_resolve(CpuM { remaining_pause: 2, ..m }, op) {
            Ok((addr, crossed)) => spec_branch(m, op, true).0.remaining_pause == (if crossed {
                5int
            } else {
                3int
            }) && spec_branch(m, op, true).0.pc == addr,
            Err(f) => true,
        }),
{
    reveal(crate::semantics::spec_branch);
}

} // verus!
