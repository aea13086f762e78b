use nes_core::apu::Apu;
use nes_core::bus::CpuBus;
use nes_core::common::Fault;
use nes_core::cpu::Cpu;
use nes_core::join_bytes;
use nes_core::mapper::{NametableMirror, Nrom, RomSize};
use nes_core::opcodes::{resolve, AddressMode, Operation};

/// A CPU in test mode (PC at 0x8000) over a 16 KiB cartridge whose
/// PRG-ROM starts with the given bytes.
fn cpu_with_program(program: &[u8]) -> Cpu {
    let mut prg = vec![0u8; 0x4000];
    prg[..program.len()].copy_from_slice(program);
    let chr = vec![0u8; 0x2000];
    let mapper = Nrom::test_mapper(&prg, &chr);
    let bus = CpuBus::new(mapper, Apu::new());
    Cpu::new(bus, true)
}

fn run_instructions(cpu: &mut Cpu, n: u64) {
    let start = cpu.instruction_counter;
    let mut guard: u32 = 0;
    while cpu.instruction_counter < start + n || cpu.remaining_pause > 0 {
        cpu.tick().expect("tick faulted");
        guard += 1;
        assert!(guard < 10_000, "program did not settle");
    }
}

#[test]
fn join_bytes_combines_high_and_low() {
    assert_eq!(join_bytes(0x12, 0x34), 0x1234);
    assert_eq!(join_bytes(0x00, 0xFF), 0x00FF);
    assert_eq!(join_bytes(0xFF, 0x00), 0xFF00);
}

#[test]
fn opcode_table_matches_matrix_samples() {
    assert_eq!(resolve(0xA9), (Operation::LDA, AddressMode::Immediate, 2, false));
    assert_eq!(resolve(0x00), (Operation::BRK, AddressMode::Implicit, 7, false));
    assert_eq!(resolve(0x6C), (Operation::JMP, AddressMode::Indirect, 5, false));
    assert_eq!(resolve(0xB1), (Operation::LDA, AddressMode::IndirectY, 5, true));
    assert_eq!(resolve(0xFF), (Operation::ISC, AddressMode::AbsoluteX, 7, false));
}

#[test]
fn byte_counts_by_mode() {
    assert_eq!(AddressMode::Implicit.byte_count(), 1);
    assert_eq!(AddressMode::Immediate.byte_count(), 2);
    assert_eq!(AddressMode::AbsoluteX.byte_count(), 3);
}

#[test]
fn reset_vector_loads_pc() {
    let mut prg = vec![0u8; 0x4000];
    // the RESET vector at 0xFFFC/0xFFFD mirrors PRG offsets 0x3FFC/0x3FFD
    prg[0x3FFC] = 0x34;
    prg[0x3FFD] = 0x12;
    let chr = vec![0u8; 0x2000];
    let mapper = Nrom::test_mapper(&prg, &chr);
    let bus = CpuBus::new(mapper, Apu::new());
    let cpu = Cpu::new(bus, false);
    assert_eq!(cpu.pc, 0x1234);
}

#[test]
fn power_up_state() {
    let cpu = cpu_with_program(&[]);
    assert_eq!(cpu.a, 0);
    assert_eq!(cpu.x, 0);
    assert_eq!(cpu.y, 0);
    assert_eq!(cpu.s, 0xFD);
    assert_eq!(cpu.pc, 0x8000);
    assert!(cpu.p.interrupt_disable);
    assert!(cpu.p.brk);
}

#[test]
fn adc_overflow_scenario() {
    // ADC #$50 with A = 0x50 and C clear
    let mut cpu = cpu_with_program(&[0x69, 0x50]);
    cpu.a = 0x50;
    cpu.p.carry = false;
    cpu.tick().unwrap();
    assert_eq!(cpu.a, 0xA0);
    assert!(cpu.p.negative);
    assert!(cpu.p.overflow);
    assert!(!cpu.p.zero);
    assert!(!cpu.p.carry);
}

#[test]
fn sbc_borrow_scenario() {
    // SBC #$01 with A = 0x00 and C set
    let mut cpu = cpu_with_program(&[0xE9, 0x01]);
    cpu.a = 0x00;
    cpu.p.carry = true;
    cpu.tick().unwrap();
    assert_eq!(cpu.a, 0xFF);
    assert!(cpu.p.negative);
    assert!(!cpu.p.overflow);
    assert!(!cpu.p.zero);
    assert!(!cpu.p.carry);
}

#[test]
fn lda_zero_page_scenario() {
    // LDA $42 with memory[0x0042] = 0x7F
    let mut cpu = cpu_with_program(&[0xA5, 0x42]);
    cpu.bus.set(0x0042, 0x7F).unwrap();
    cpu.tick().unwrap();
    assert_eq!(cpu.a, 0x7F);
    assert!(!cpu.p.negative);
    assert!(!cpu.p.zero);
}

#[test]
fn jsr_rts_roundtrip() {
    // JSR $9000 at 0x8000; RTS at 0x9000 (PRG offset 0x1000)
    let mut prg = vec![0u8; 0x4000];
    prg[0] = 0x20;
    prg[1] = 0x00;
    prg[2] = 0x90;
    prg[0x1000] = 0x60;
    let chr = vec![0u8; 0x2000];
    let mapper = Nrom::test_mapper(&prg, &chr);
    let bus = CpuBus::new(mapper, Apu::new());
    let mut cpu = Cpu::new(bus, true);
    assert_eq!(cpu.s, 0xFD);
    run_instructions(&mut cpu, 2);
    assert_eq!(cpu.pc, 0x8003);
    assert_eq!(cpu.s, 0xFD);
}

#[test]
fn indirect_jmp_page_wrap_defect() {
    // JMP ($10FF) with 0x10FF = 0xAA, 0x1000 = 0xBB, 0x1100 = 0xCC:
    // the high byte comes from 0x1000, not 0x1100
    let mut cpu = cpu_with_program(&[0x6C, 0xFF, 0x10]);
    cpu.bus.set(0x10FF, 0xAA).unwrap();
    cpu.bus.set(0x1000, 0xBB).unwrap();
    cpu.bus.set(0x1100, 0xCC).unwrap();
    cpu.tick().unwrap();
    assert_eq!(cpu.pc, 0xBBAA);
}

#[test]
fn indirect_y_page_cross_penalty() {
    // LDA ($10),Y with base 0x00FF and Y = 1 crosses into page 1
    let mut cpu = cpu_with_program(&[0xB1, 0x10]);
    cpu.bus.set(0x0010, 0xFF).unwrap();
    cpu.bus.set(0x0011, 0x00).unwrap();
    cpu.y = 1;
    cpu.tick().unwrap();
    assert_eq!(cpu.remaining_pause, 5);

    // the same read without the crossing pays one cycle less
    let mut cpu2 = cpu_with_program(&[0xB1, 0x10]);
    cpu2.bus.set(0x0010, 0x80).unwrap();
    cpu2.bus.set(0x0011, 0x00).unwrap();
    cpu2.y = 1;
    cpu2.tick().unwrap();
    assert_eq!(cpu2.remaining_pause, 4);
}

#[test]
fn branch_page_cross_penalty() {
    // BEQ taken across a page boundary: offset -128 from 0x8000
    let mut cpu = cpu_with_program(&[0xF0, 0x80]);
    cpu.p.zero = true;
    cpu.tick().unwrap();
    assert_eq!(cpu.pc, 0x7F82);
    assert_eq!(cpu.remaining_pause, 5);

    // taken within the page: one extra cycle only
    let mut cpu2 = cpu_with_program(&[0xF0, 0x10]);
    cpu2.p.zero = true;
    cpu2.tick().unwrap();
    assert_eq!(cpu2.pc, 0x8012);
    assert_eq!(cpu2.remaining_pause, 3);

    // not taken: the base two pending cycles
    let mut cpu3 = cpu_with_program(&[0xF0, 0x10]);
    cpu3.p.zero = false;
    cpu3.tick().unwrap();
    assert_eq!(cpu3.pc, 0x8002);
    assert_eq!(cpu3.remaining_pause, 2);
}

#[test]
fn clc_twice_leaves_p_identical() {
    let mut cpu = cpu_with_program(&[0x18, 0x18]);
    cpu.p.carry = true;
    run_instructions(&mut cpu, 1);
    let p_after_one = cpu.p;
    run_instructions(&mut cpu, 1);
    assert_eq!(cpu.p, p_after_one);
}

#[test]
fn pha_pla_roundtrip() {
    // LDA #$42; PHA; LDA #$00; PLA
    let mut cpu = cpu_with_program(&[0xA9, 0x42, 0x48, 0xA9, 0x00, 0x68]);
    run_instructions(&mut cpu, 4);
    assert_eq!(cpu.a, 0x42);
    assert_eq!(cpu.s, 0xFD);
}

#[test]
fn unmapped_read_faults() {
    // LDA $5000: nothing answers 0x4020..=0x5FFF on this mapper
    let mut cpu = cpu_with_program(&[0xAD, 0x00, 0x50]);
    assert_eq!(cpu.tick(), Err(Fault::BadRead(0x5000)));
}

#[test]
fn rom_write_faults() {
    // STA $8000: PRG-ROM is not writable, and there is no PRG-RAM
    let mut cpu = cpu_with_program(&[0x8D, 0x00, 0x80]);
    assert_eq!(cpu.tick(), Err(Fault::BadWrite(0x8000)));
}

#[test]
fn halt_opcode_faults() {
    // 0x02 is a KIL slot
    let mut cpu = cpu_with_program(&[0x02]);
    assert_eq!(cpu.tick(), Err(Fault::Halt(Operation::KIL)));
}

#[test]
fn oam_dma_copies_page() {
    // LDA #$02; STA $4014 triggers OAM DMA from page 2
    let mut cpu = cpu_with_program(&[0xA9, 0x02, 0x8D, 0x14, 0x40]);
    for i in 0..256u16 {
        cpu.bus.set(0x0200 + i, i as u8).unwrap();
    }
    run_instructions(&mut cpu, 2);
    assert_eq!(cpu.bus.oam.len(), 256);
    for i in 0..256usize {
        assert_eq!(cpu.bus.oam[i], i as u8);
    }
}

#[test]
fn nmi_services_vector_and_pushes() {
    let mut prg = vec![0u8; 0x4000];
    // NMI vector at 0xFFFA/0xFFFB -> 0x9000
    prg[0x3FFA] = 0x00;
    prg[0x3FFB] = 0x90;
    let chr = vec![0u8; 0x2000];
    let mapper = Nrom::test_mapper(&prg, &chr);
    let bus = CpuBus::new(mapper, Apu::new());
    let mut cpu = Cpu::new(bus, true);
    cpu.flag_nmi();
    cpu.tick().unwrap();
    assert_eq!(cpu.pc, 0x9000);
    assert_eq!(cpu.s, 0xFA);
    assert!(!cpu.nmi);
}

#[test]
fn irq_masked_by_interrupt_disable() {
    let mut cpu = cpu_with_program(&[0xEA]);
    cpu.p.interrupt_disable = true;
    cpu.flag_irq();
    cpu.tick().unwrap();
    // the latch stays set and the instruction at PC runs instead
    assert!(cpu.irq);
    assert_eq!(cpu.pc, 0x8001);
    assert_eq!(cpu.s, 0xFD);
}

#[test]
fn irq_taken_when_enabled() {
    let mut prg = vec![0u8; 0x4000];
    // IRQ vector at 0xFFFE/0xFFFF -> 0x9000
    prg[0x3FFE] = 0x00;
    prg[0x3FFF] = 0x90;
    let chr = vec![0u8; 0x2000];
    let mapper = Nrom::test_mapper(&prg, &chr);
    let bus = CpuBus::new(mapper, Apu::new());
    let mut cpu = Cpu::new(bus, true);
    cpu.p.interrupt_disable = false;
    cpu.flag_irq();
    cpu.tick().unwrap();
    assert_eq!(cpu.pc, 0x9000);
    assert_eq!(cpu.s, 0xFA);
    assert!(!cpu.irq);
}

#[test]
fn sbc_overflow_boundary() {
    // A = 0x80, SBC #$00 with C set: -128 - 0 stays in range, V clear
    let mut cpu = cpu_with_program(&[0xE9, 0x00]);
    cpu.a = 0x80;
    cpu.p.carry = true;
    cpu.tick().unwrap();
    assert_eq!(cpu.a, 0x80);
    assert!(!cpu.p.overflow);
    assert!(cpu.p.carry);
    assert!(cpu.p.negative);

    // A = 0x00, SBC #$80 with C set: 0 - (-128) = 128 overflows, V set
    let mut cpu2 = cpu_with_program(&[0xE9, 0x80]);
    cpu2.a = 0x00;
    cpu2.p.carry = true;
    cpu2.tick().unwrap();
    assert_eq!(cpu2.a, 0x80);
    assert!(cpu2.p.overflow);
    assert!(!cpu2.p.carry);
}

#[test]
fn and_page_cross_penalty() {
    // AND $00FF,Y with Y = 1 crosses into page 1
    let mut cpu = cpu_with_program(&[0x39, 0xFF, 0x00]);
    cpu.a = 0xFF;
    cpu.y = 1;
    cpu.tick().unwrap();
    assert_eq!(cpu.remaining_pause, 4);
}

#[test]
fn lax_keeps_lda_cycles() {
    // LAX ($10),Y crossing a page keeps LDA's 4+1 pending cycles
    let mut cpu = cpu_with_program(&[0xB3, 0x10]);
    cpu.bus.set(0x0010, 0xFF).unwrap();
    cpu.bus.set(0x0011, 0x00).unwrap();
    cpu.bus.set(0x0100, 0x55).unwrap();
    cpu.y = 1;
    cpu.tick().unwrap();
    assert_eq!(cpu.remaining_pause, 5);
    assert_eq!(cpu.a, 0x55);
    assert_eq!(cpu.x, 0x55);

    // LAX $10 costs the zero-page read's 3 cycles
    let mut cpu2 = cpu_with_program(&[0xA7, 0x10]);
    cpu2.bus.set(0x0010, 0x99).unwrap();
    cpu2.tick().unwrap();
    assert_eq!(cpu2.remaining_pause, 2);
    assert_eq!(cpu2.a, 0x99);
    assert_eq!(cpu2.x, 0x99);
}

#[test]
fn nop_and_flag_op_cycles() {
    // official NOP: 2 documented cycles, so 1 pending after the tick
    let mut cpu = cpu_with_program(&[0xEA]);
    cpu.tick().unwrap();
    assert_eq!(cpu.remaining_pause, 1);

    // unofficial zero-page NOP slot: 3 documented cycles
    let mut cpu2 = cpu_with_program(&[0x04, 0x00]);
    cpu2.tick().unwrap();
    assert_eq!(cpu2.remaining_pause, 2);

    // CLC: 2 documented cycles
    let mut cpu3 = cpu_with_program(&[0x18]);
    cpu3.tick().unwrap();
    assert_eq!(cpu3.remaining_pause, 1);
}

#[test]
fn nrom_header_parsing() {
    let mut header = vec![0u8; 16];
    header[4] = 2; // two 16 KiB PRG units
    header[5] = 1; // one 8 KiB CHR unit
    header[6] = 0b0000_0101; // vertical mirroring, PRG-RAM present
    let mut sections = vec![0u8; 0x8000 + 0x2000];
    sections[0] = 0xAB;
    sections[0x7FFF] = 0xCD;
    sections[0x8000] = 0xEF;
    let mapper = Nrom::new(&header, &sections);
    assert_eq!(mapper.rom_size, RomSize::ThirtyTwo);
    assert_eq!(mapper.nametable_mirror, NametableMirror::Vertical);
    assert!(mapper.prg_ram.is_some());
    assert_eq!(mapper.get_cpu_space(0x8000), 0xAB);
    assert_eq!(mapper.get_cpu_space(0xFFFF), 0xCD);
    assert_eq!(mapper.get_ppu_space(0x0000), 0xEF);
}

#[test]
fn prg_ram_read_write() {
    let mut header = vec![0u8; 16];
    header[4] = 1;
    header[5] = 1;
    header[6] = 0b0000_0100; // PRG-RAM present
    let sections = vec![0u8; 0x4000 + 0x2000];
    let mut mapper = Nrom::new(&header, &sections);
    mapper.set_cpu_space(0x6000, 0x55);
    mapper.set_cpu_space(0x7FFF, 0x66);
    assert_eq!(mapper.get_cpu_space(0x6000), 0x55);
    assert_eq!(mapper.get_cpu_space(0x7FFF), 0x66);
}

#[test]
fn sixteen_kib_mirror() {
    let mut prg = vec![0u8; 0x4000];
    prg[0x0123] = 0x9A;
    let chr = vec![0u8; 0x2000];
    let mapper = Nrom::test_mapper(&prg, &chr);
    assert_eq!(mapper.get_cpu_space(0x8123), 0x9A);
    assert_eq!(mapper.get_cpu_space(0xC123), 0x9A);
}

#[test]
fn nametable_shadow_reads_match() {
    let prg = vec![0u8; 0x4000];
    let chr = vec![0u8; 0x2000];
    let mut mapper = Nrom::test_mapper(&prg, &chr); // horizontal mirroring
    for k in 0..0x0400u16 {
        mapper.set_ppu_space(0x2000 + k, (k % 251) as u8);
    }
    for k in 0..0x0400u16 {
        assert_eq!(
            mapper.get_ppu_space(0x3000 + k),
            mapper.get_ppu_space(0x2000 + k)
        );
    }
}

#[test]
fn horizontal_mirroring_pairs_slots() {
    let prg = vec![0u8; 0x4000];
    let chr = vec![0u8; 0x2000];
    let mut mapper = Nrom::test_mapper(&prg, &chr); // horizontal mirroring
    mapper.set_ppu_space(0x2000, 0x11);
    // slots 0 and 1 share the first physical region
    assert_eq!(mapper.get_ppu_space(0x2400), 0x11);
    // slot 2 lies in the second physical region
    mapper.set_ppu_space(0x2800, 0x22);
    assert_eq!(mapper.get_ppu_space(0x2C00), 0x22);
    assert_eq!(mapper.get_ppu_space(0x2000), 0x11);
}

#[test]
fn apu_sample_rate_over_one_frame() {
    let mut apu = Apu::new();
    for _ in 0..29781u32 {
        apu.tick();
    }
    let n = apu.samples().len();
    assert!((734..=736).contains(&n), "got {} samples", n);
}

#[test]
fn apu_enabled_pulse_contributes_volume() {
    let mut apu = Apu::new();
    // duty 0, constant volume 15
    apu.set_register(0x4000, 0b0001_1111);
    // length-load field 1 -> a nonzero length counter
    apu.set_register(0x4003, 0x08);
    apu.set_register(0x4015, 0x01);
    // the first tick advances the duty phase to 1 (high on duty 0)
    // and emits a sample
    apu.tick();
    assert_eq!(apu.samples().len(), 1);
    assert_eq!(apu.samples()[0].pulse1, 15);
}

#[test]
fn apu_disabling_channel_silences_next_sample() {
    let mut apu = Apu::new();
    apu.set_register(0x4000, 0b0001_1111);
    apu.set_register(0x4003, 0x08);
    apu.set_register(0x4015, 0x01);
    // disable pulse 1 again before any sample is emitted
    apu.set_register(0x4015, 0x00);
    apu.tick();
    assert_eq!(apu.samples().len(), 1);
    assert_eq!(apu.samples()[0].pulse1, 0);
    assert_eq!(apu.pulse1.length_counter.length, 0);
}

#[test]
fn apu_length_table_values() {
    assert_eq!(nes_core::apu::length_value(0x00), 10);
    assert_eq!(nes_core::apu::length_value(0x01), 254);
    assert_eq!(nes_core::apu::length_value(0x1F), 30);
}

#[test]
fn apu_take_samples_drains_buffer() {
    let mut apu = Apu::new();
    apu.tick();
    assert_eq!(apu.samples().len(), 1);
    let drained = apu.take_samples();
    assert_eq!(drained.len(), 1);
    assert_eq!(apu.samples().len(), 0);
}

#[test]
fn apu_frame_counter_mode_byte() {
    let mut apu = Apu::new();
    apu.set_register(0x4017, 0xFF);
    // only the mode bits are kept
    assert_eq!(apu.frame_counter, 0xC0);
}

#[test]
fn cpu_register_write_reaches_apu() {
    // LDA #$01; STA $4015 enables pulse 1 through the bus
    let mut cpu = cpu_with_program(&[0xA9, 0x01, 0x8D, 0x15, 0x40]);
    run_instructions(&mut cpu, 2);
    assert_eq!(cpu.bus.apu.enabled, 0x01);
}
