//! The NROM cartridge mapper: fixed 16 or 32 KiB of PRG-ROM, 8 KiB of
//! CHR-ROM, optional 8 KiB of PRG-RAM, and the console's internal 4 KiB
//! of VRAM behind the nametable-mirroring function.

use vstd::prelude::*;

verus! {

/// How the four logical nametable slots collapse onto the two physical
/// 1 KiB VRAM regions.
#[derive(Clone, Copy, Debug, PartialEq, Eq, Structural)]
pub enum NametableMirror {
    Horizontal,
    Vertical,
}

/// NROM supports PRG-ROM sizes of either 16 or 32 KiB.
#[derive(Clone, Copy, Debug, PartialEq, Eq, Structural)]
pub enum RomSize {
    Sixteen,
    ThirtyTwo,
}

/// The mapper's mathematical state: every backing array as a sequence.
#[verifier::ext_equal]
pub ghost struct MapperM {
    pub rom_size: RomSize,
    pub prg_ram: Option<Seq<u8>>,
    pub prg_rom: Seq<u8>,
    pub chr_rom: Seq<u8>,
    pub internal_vram: Seq<u8>,
    pub nametable_mirror: NametableMirror,
}

/// The NROM mapper state.
pub struct Nrom {
    pub rom_size: RomSize,
    pub prg_ram: Option<Vec<u8>>,
    pub prg_rom: Vec<u8>,
    pub chr_rom: Vec<u8>,
    pub internal_vram: Vec<u8>,
    pub nametable_mirror: NametableMirror,
}

impl View for Nrom {
    type V = MapperM;

    open spec fn view(&self) -> MapperM {
        MapperM {
            rom_size: self.rom_size,
            prg_ram: match self.prg_ram {
                Some(ref r) => Some(r@),
                None => None,
            },
            prg_rom: self.prg_rom@,
            chr_rom: self.chr_rom@,
            internal_vram: self.internal_vram@,
            nametable_mirror: self.nametable_mirror,
        }
    }
}

impl MapperM {
    /// The sizes every backing array must have on this mapper.
    pub open spec fn wf(self) -> bool {
        &&& self.prg_rom.len() == (match self.rom_size {
            RomSize::Sixteen => 0x4000int,
            RomSize::ThirtyTwo => 0x8000int,
        })
        &&& self.chr_rom.len() == 0x2000
        &&& self.internal_vram.len() == 0x1000
        &&& (match self.prg_ram {
            Some(r) => r.len() == 0x2000,
            None => true,
        })
    }
}

/// Index into the internal VRAM for a nametable address in
/// 0x2000..=0x2FFF: horizontal mirroring pairs slots (0,1) and (2,3),
/// vertical pairs (0,2) and (1,3).
pub open spec fn spec_mirrored(mirror: NametableMirror, addr: u16) -> u16 {
    match mirror {
        NametableMirror::Horizontal => (addr & 0x03FF) | ((addr & 0x0800) >> 1),
        NametableMirror::Vertical => addr & 0x07FF,
    }
}

/// Whether a CPU-space read of `addr` reaches a byte on this cartridge:
/// PRG-ROM always answers, PRG-RAM only when installed; 0x4020..=0x5FFF
/// is unused on NROM, and addresses below 0x4020 never reach the mapper.
pub open spec fn spec_cpu_read_ok(m: MapperM, addr: u16) -> bool {
    if addr < 0x6000 {
        false
    } else if addr < 0x8000 {
        m.prg_ram is Some
    } else {
        true
    }
}

/// The byte a CPU-space read returns (meaningful when `spec_cpu_read_ok`).
pub open spec fn spec_get_cpu(m: MapperM, addr: u16) -> u8 {
    if addr < 0x6000 {
        0
    } else if addr < 0x8000 {
        match m.prg_ram {
            Some(r) => r[addr - 0x6000],
            None => 0,
        }
    } else if addr < 0xC000 {
        m.prg_rom[addr - 0x8000]
    } else {
        match m.rom_size {
            RomSize::Sixteen => m.prg_rom[addr - 0xC000],
            RomSize::ThirtyTwo => m.prg_rom[addr - 0x8000],
        }
    }
}

/// Whether a CPU-space write lands in writable storage: only PRG-RAM is.
pub open spec fn spec_cpu_write_ok(m: MapperM, addr: u16) -> bool {
    0x6000 <= addr < 0x8000 && m.prg_ram is Some
}

/// The mapper state after a CPU-space write (meaningful when
/// `spec_cpu_write_ok`).
pub open spec fn spec_set_cpu(m: MapperM, addr: u16, value: u8) -> MapperM {
    MapperM {
        prg_ram: match m.prg_ram {
            Some(r) => Some(r.update(addr - 0x6000, value)),
            None => None,
        },
        ..m
    }
}

/// The byte a PPU-space read returns, for addresses up to 0x3EFF:
/// pattern tables from CHR-ROM, nametables from VRAM through the mirror
/// function, and 0x3000..=0x3EFF as the VRAM bytes at `addr - 0x3000`.
pub open spec fn spec_get_ppu(m: MapperM, addr: u16) -> u8 {
    if addr < 0x2000 {
        m.chr_rom[addr as int]
    } else if addr < 0x3000 {
        m.internal_vram[spec_mirrored(m.nametable_mirror, addr) as int]
    } else {
        m.internal_vram[addr - 0x3000]
    }
}

/// The mapper state after a PPU-space write, for addresses up to 0x3EFF.
pub open spec fn spec_set_ppu(m: MapperM, addr: u16, value: u8) -> MapperM {
    if addr < 0x2000 {
        MapperM { chr_rom: m.chr_rom.update(addr as int, value), ..m }
    } else if addr < 0x3000 {
        MapperM {
            internal_vram: m.internal_vram.update(
                spec_mirrored(m.nametable_mirror, addr) as int,
                value,
            ),
            ..m
        }
    } else {
        MapperM { internal_vram: m.internal_vram.update(addr - 0x3000, value), ..m }
    }
}

impl Nrom {
    /// Builds the mapper from a 16-byte cartridge header and the ROM
    /// sections that follow it. The caller must already have rejected
    /// what this mapper does not support: PRG-ROM counts other than 1
    /// or 2, CHR-ROM counts other than 1, and trainer blocks.
    pub fn new(header: &Vec<u8>, rom_sections: &Vec<u8>) -> (r: Nrom)
        requires
            header@.len() >= 16,
            header@[4] == 1 || header@[4] == 2,
            header@[5] == 1,
            header@[6] & 0b0000_1000 == 0,
            rom_sections@.len() >= 0x4000 * header@[4] + 0x2000,
        ensures
            r@.wf(),
            r@.rom_size == (if header@[4] == 1 {
                RomSize::Sixteen
            } else {
                RomSize::ThirtyTwo
            }),
            r@.prg_rom == rom_sections@.subrange(0, 0x4000 * header@[4] as int),
            r@.chr_rom == rom_sections@.subrange(
                0x4000 * header@[4] as int,
                0x4000 * header@[4] + 0x2000,
            ),
            r@.prg_ram == (if header@[6] & 0b0000_0100 != 0 {
                Some(Seq::new(0x2000, |i: int| 0u8))
            } else {
                None::<Seq<u8>>
            }),
            r@.internal_vram == Seq::new(0x1000, |i: int| 0u8),
            r@.nametable_mirror == (if header@[6] & 0b0000_0001 != 0 {
                NametableMirror::Vertical
            } else {
                NametableMirror::Horizontal
            }),
    {
        let prg_units = header[4];
        let prg_ram = if header[6] & 0b0000_0100 != 0 {
            Some(vec![0u8; 0x2000])
        } else {
            None
        };
        let nametable_mirror = if header[6] & 0b0000_0001 != 0 {
            NametableMirror::Vertical
        } else {
            NametableMirror::Horizontal
        };
        let rom_size = if prg_units == 1 {
            RomSize::Sixteen
        } else {
            RomSize::ThirtyTwo
        };
        let prg_len: usize = 0x4000 * (prg_units as usize);
        let prg_rom = copy_range(rom_sections, 0, prg_len);
        let chr_rom = copy_range(rom_sections, prg_len, 0x2000);
        Nrom {
            rom_size,
            prg_ram,
            prg_rom,
            chr_rom,
            internal_vram: vec![0u8; 0x1000],
            nametable_mirror,
        }
    }

    /// A 16 KiB mapper without PRG-RAM, for exercising the core.
    pub fn test_mapper(prg_rom: &Vec<u8>, chr_rom: &Vec<u8>) -> (r: Nrom)
        requires
            prg_rom@.len() == 0x4000,
            chr_rom@.len() == 0x2000,
        ensures
            r@.wf(),
            r@.rom_size == RomSize::Sixteen,
            r@.prg_ram is None,
            r@.prg_rom == prg_rom@,
            r@.chr_rom == chr_rom@,
            r@.internal_vram == Seq::new(0x1000, |i: int| 0u8),
            r@.nametable_mirror == NametableMirror::Horizontal,
    {
        Nrom {
            rom_size: RomSize::Sixteen,
            prg_ram: None,
            prg_rom: copy_range(prg_rom, 0, 0x4000),
            chr_rom: copy_range(chr_rom, 0, 0x2000),
            internal_vram: vec![0u8; 0x1000],
            nametable_mirror: NametableMirror::Horizontal,
        }
    }

    /// The VRAM index a nametable address falls on under this
    /// cartridge's mirroring.
    pub fn mirrored_addr(&self, addr: u16) -> (r: u16)
        requires
            0x2000 <= addr < 0x3000,
        ensures
            r == spec_mirrored(self.nametable_mirror, addr),
            r < 0x1000,
    {
        let r = match self.nametable_mirror {
            NametableMirror::Horizontal => (addr & 0x03FF) | ((addr & 0x0800) >> 1),
            NametableMirror::Vertical => addr & 0x07FF,
        };
        proof {
            assert(((addr & 0x03FF) | ((addr & 0x0800) >> 1)) < 0x1000) by (bit_vector);
            assert((addr & 0x07FF) < 0x1000) by (bit_vector);
        }
        r
    }

    /// Reads a cartridge byte in CPU space.
    pub fn get_cpu_space(&self, addr: u16) -> (r: u8)
        requires
            self@.wf(),
            spec_cpu_read_ok(self@, addr),
        ensures
            r == spec_get_cpu(self@, addr),
    {
        if addr < 0x8000 {
            match &self.prg_ram {
                Some(ram) => ram[(addr - 0x6000) as usize],
                None => 0,  // excluded by spec_cpu_read_ok
            }
        } else if addr < 0xC000 {
            self.prg_rom[(addr - 0x8000) as usize]
        } else {
            match self.rom_size {
                RomSize::Sixteen => self.prg_rom[(addr - 0xC000) as usize],
                RomSize::ThirtyTwo => self.prg_rom[(addr - 0x8000) as usize],
            }
        }
    }

    /// Writes a cartridge byte in CPU space (PRG-RAM only).
    pub fn set_cpu_space(&mut self, addr: u16, value: u8)
        requires
            old(self)@.wf(),
            spec_cpu_write_ok(old(self)@, addr),
        ensures
            final(self)@.wf(),
            final(self)@ == spec_set_cpu(old(self)@, addr, value),
    {
        match &mut self.prg_ram {
            Some(ram) => {
                ram.set((addr - 0x6000) as usize, value);
            },
            None => {},  // excluded by spec_cpu_write_ok
        }
    }

    /// Reads a byte in PPU space (pattern tables and nametables).
    pub fn get_ppu_space(&self, addr: u16) -> (r: u8)
        requires
            self@.wf(),
            addr < 0x3F00,
        ensures
            r == spec_get_ppu(self@, addr),
    {
        if addr < 0x2000 {
            self.chr_rom[addr as usize]
        } else if addr < 0x3000 {
            self.internal_vram[self.mirrored_addr(addr) as usize]
        } else {
            self.internal_vram[(addr - 0x3000) as usize]
        }
    }

    /// Writes a byte in PPU space. CHR writes land in the pattern-table
    /// array (CHR is RAM on some boards).
    pub fn set_ppu_space(&mut self, addr: u16, value: u8)
        requires
            old(self)@.wf(),
            addr < 0x3F00,
        ensures
            final(self)@.wf(),
            final(self)@ == spec_set_ppu(old(self)@, addr, value),
    {
        if addr < 0x2000 {
            self.chr_rom.set(addr as usize, value);
        } else if addr < 0x3000 {
            let idx = self.mirrored_addr(addr);
            self.internal_vram.set(idx as usize, value);
        } else {
            self.internal_vram.set((addr - 0x3000) as usize, value);
        }
    }
}

/// Copies `len` bytes of `src` starting at `start` into a fresh vector.
fn copy_range(src: &Vec<u8>, start: usize, len: usize) -> (r: Vec<u8>)
    requires
        start + len <= src@.len(),
    ensures
        r@ == src@.subrange(start as int, start + len),
{
    let n = src.len();
    let mut out: Vec<u8> = Vec::new();
    let mut i: usize = 0;
    while i < len
        invariant
            i <= len,
            start + len <= n == src@.len(),
            out@ == src@.subrange(start as int, start + i),
        decreases len - i,
    {
        out.push(src[start + i]);
        proof {
            assert(out@ =~= src@.subrange(start as int, start + i + 1));
        }
        i = i + 1;
    }
    out
}

} // verus!
