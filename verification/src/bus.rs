//! The CPU's memory bus. It demultiplexes the 16-bit address space:
//! 0x0000..=0x1FFF is the internal 2 KiB RAM mirrored four times,
//! 0x2000..=0x3FFF are the picture unit's registers (outside this core;
//! reads return 0 and writes are dropped), 0x4000..=0x4017 are the APU
//! and I/O registers, 0x4018..=0x401F are test-mode registers (ignored),
//! and 0x4020..=0xFFFF belongs to the cartridge mapper.

use vstd::prelude::*;

use crate::apu::{Apu, ApuM, spec_apu_set_register};
use crate::common::{Fault, spec_join, wadd16};
use crate::mapper::{MapperM, Nrom, spec_cpu_read_ok, spec_cpu_write_ok, spec_get_cpu,
    spec_set_cpu};

verus! {

/// The bus's mathematical state.
#[verifier::ext_equal]
pub ghost struct BusM {
    pub ram: Seq<u8>,
    pub mapper: MapperM,
    pub apu: ApuM,
    /// Stand-in for the picture unit's sprite memory, filled by OAM DMA.
    pub oam: Seq<u8>,
}

/// The CPU's memory bus: internal RAM, the cartridge mapper, the APU,
/// and the sprite-memory buffer that OAM DMA fills.
pub struct CpuBus {
    pub ram: Vec<u8>,
    pub mapper: Nrom,
    pub apu: Apu,
    pub oam: Vec<u8>,
}

impl View for CpuBus {
    type V = BusM;

    open spec fn view(&self) -> BusM {
        BusM { ram: self.ram@, mapper: self.mapper@, apu: self.apu@, oam: self.oam@ }
    }
}

impl BusM {
    pub open spec fn wf(self) -> bool {
        &&& self.ram.len() == 0x800
        &&& self.oam.len() == 0x100
        &&& self.mapper.wf()
        &&& self.apu.wf()
    }
}

/// Whether a read of `addr` reaches a byte some device answers.
#[verifier::opaque]
pub open spec fn bus_read_ok(b: BusM, addr: u16) -> bool {
    if addr < 0x4020 {
        true
    } else {
        spec_cpu_read_ok(b.mapper, addr)
    }
}

/// The byte a read returns (meaningful when `bus_read_ok`). Reads of
/// the picture unit's registers and of the APU/I-O range return 0:
/// those devices' readable state is outside this core.
#[verifier::opaque]
pub open spec fn bus_get(b: BusM, addr: u16) -> u8 {
    if addr < 0x2000 {
        b.ram[(addr & 0x07FF) as int]
    } else if addr < 0x4020 {
        0
    } else {
        spec_get_cpu(b.mapper, addr)
    }
}

/// A read as the CPU sees it: the byte, or the fault for an address no
/// device answers.
#[verifier::opaque]
pub open spec fn spec_bus_read(b: BusM, addr: u16) -> Result<u8, Fault> {
    if bus_read_ok(b, addr) {
        Ok(bus_get(b, addr))
    } else {
        Err(Fault::BadRead(addr))
    }
}

/// Whether a write to `addr` lands somewhere defined.
#[verifier::opaque]
pub open spec fn bus_write_ok(b: BusM, addr: u16) -> bool {
    if addr < 0x4020 {
        true
    } else {
        spec_cpu_write_ok(b.mapper, addr)
    }
}

/// The bus after a write (meaningful when `bus_write_ok`).
#[verifier::opaque]
pub open spec fn bus_set(b: BusM, addr: u16, value: u8) -> BusM {
    if addr < 0x2000 {
        BusM { ram: b.ram.update((addr & 0x07FF) as int, value), ..b }
    } else if addr < 0x4000 {
        b
    } else if addr < 0x4018 {
        BusM { apu: spec_apu_set_register(b.apu, addr, value), ..b }
    } else if addr < 0x4020 {
        b
    } else {
        BusM { mapper: spec_set_cpu(b.mapper, addr, value), ..b }
    }
}

/// A write as the CPU sees it: the new bus, or the fault for an address
/// no writable device claims.
#[verifier::opaque]
pub open spec fn spec_bus_write(b: BusM, addr: u16, value: u8) -> Result<BusM, Fault> {
    if bus_write_ok(b, addr) {
        Ok(bus_set(b, addr, value))
    } else {
        Err(Fault::BadWrite(addr))
    }
}

/// The 256 bytes of the page starting at `base + i`, read in order;
/// the first unanswered address faults the whole page read.
pub open spec fn spec_page_from(b: BusM, base: u16, i: int) -> Result<Seq<u8>, Fault>
    decreases 256 - i,
{
    if i >= 256 {
        Ok(Seq::<u8>::empty())
    } else {
        match spec_bus_read(b, wadd16(base, i as u16)) {
            Err(f) => Err(f),
            Ok(v) => match spec_page_from(b, base, i + 1) {
                Err(f) => Err(f),
                Ok(rest) => Ok(rest.insert(0, v)),
            },
        }
    }
}

/// The 256 bytes of the page whose high address byte is `page`.
pub open spec fn spec_get_page(b: BusM, page: u8) -> Result<Seq<u8>, Fault> {
    spec_page_from(b, spec_join(page, 0), 0)
}

impl CpuBus {
    /// A bus over the given cartridge, with RAM and sprite memory zeroed.
    pub fn new(mapper: Nrom, apu: Apu) -> (r: CpuBus)
        requires
            mapper@.wf(),
            apu@.wf(),
        ensures
            r@.wf(),
            r@.mapper == mapper@,
            r@.apu == apu@,
            r@.ram == Seq::new(0x800, |i: int| 0u8),
            r@.oam == Seq::new(0x100, |i: int| 0u8),
    {
        CpuBus { ram: vec![0u8; 0x800], mapper, apu, oam: vec![0u8; 0x100] }
    }

    /// Whether a read of `addr` is answered.
    pub fn readable(&self, addr: u16) -> (r: bool)
        ensures
            r == bus_read_ok(self@, addr),
    {
        proof {
            reveal(bus_read_ok);
        }
        addr < 0x4020 || addr >= 0x8000 || (addr >= 0x6000 && self.mapper.prg_ram.is_some())
    }

    /// Reads one byte, or reports the unanswered address.
    pub fn get(&self, addr: u16) -> (r: Result<u8, Fault>)
        requires
            self@.wf(),
        ensures
            r == spec_bus_read(self@, addr),
    {
        proof {
            reveal(spec_bus_read);
        }
        if !self.readable(addr) {
            return Err(Fault::BadRead(addr));
        }
        Ok(self.get_ok(addr))
    }

    /// Reads one byte of an address known to be answered.
    pub fn get_ok(&self, addr: u16) -> (r: u8)
        requires
            self@.wf(),
            bus_read_ok(self@, addr),
        ensures
            r == bus_get(self@, addr),
    {
        proof {
            reveal(bus_read_ok);
            reveal(bus_get);
        }
        if addr < 0x2000 {
            let idx = addr & 0x07FF;
            proof {
                assert((addr & 0x07FF) < 0x800) by (bit_vector);
            }
            self.ram[idx as usize]
        } else if addr < 0x4020 {
            0
        } else {
            self.mapper.get_cpu_space(addr)
        }
    }

    /// Writes one byte, or reports the unclaimed address.
    pub fn set(&mut self, addr: u16, value: u8) -> (r: Result<(), Fault>)
        requires
            old(self)@.wf(),
        ensures
            final(self)@.wf(),
            match spec_bus_write(old(self)@, addr, value) {
                Ok(b2) => r is Ok && final(self)@ == b2,
                Err(f) => r == Err::<(), Fault>(f) && final(self)@ == old(self)@,
            },
    {
        proof {
            reveal(spec_bus_write);
            reveal(bus_write_ok);
        }
        if addr < 0x4020 || (addr >= 0x6000 && addr < 0x8000 && self.mapper.prg_ram.is_some()) {
            self.set_ok(addr, value);
            Ok(())
        } else {
            Err(Fault::BadWrite(addr))
        }
    }

    /// Writes one byte to an address known to be claimed.
    pub fn set_ok(&mut self, addr: u16, value: u8)
        requires
            old(self)@.wf(),
            bus_write_ok(old(self)@, addr),
        ensures
            final(self)@.wf(),
            final(self)@ == bus_set(old(self)@, addr, value),
    {
        proof {
            reveal(bus_write_ok);
            reveal(bus_set);
        }
        if addr < 0x2000 {
            let idx = addr & 0x07FF;
            proof {
                assert((addr & 0x07FF) < 0x800) by (bit_vector);
            }
            self.ram.set(idx as usize, value);
        } else if addr < 0x4000 {
            // picture-unit registers: outside this core
        } else if addr < 0x4018 {
            self.apu.set_register(addr, value);
        } else if addr < 0x4020 {
            // test-mode registers: ignored
        } else {
            self.mapper.set_cpu_space(addr, value);
        }
    }

    /// Reads the tail of a page, from `base + i` through `base + 255`.
    fn get_page_from(&self, base: u16, i: usize) -> (r: Result<Vec<u8>, Fault>)
        requires
            self@.wf(),
            i <= 256,
        ensures
            match spec_page_from(self@, base, i as int) {
                Ok(s) => r is Ok && r->Ok_0@ == s && s.len() == 256 - i,
                Err(f) => r == Err::<Vec<u8>, Fault>(f),
            },
        decreases 256 - i,
    {
        if i == 256 {
            return Ok(Vec::new());
        }
        let v = match self.get(base.wrapping_add(i as u16)) {
            Ok(v) => v,
            Err(f) => {
                return Err(f);
            },
        };
        match self.get_page_from(base, i + 1) {
            Ok(mut rest) => {
                rest.insert(0, v);
                Ok(rest)
            },
            Err(f) => Err(f),
        }
    }

    /// Reads the 256 bytes of the page whose high address byte is
    /// `page`, for OAM DMA.
    pub fn get_page(&self, page: u8) -> (r: Result<Vec<u8>, Fault>)
        requires
            self@.wf(),
        ensures
            match spec_get_page(self@, page) {
                Ok(s) => r is Ok && r->Ok_0@ == s && s.len() == 256,
                Err(f) => r == Err::<Vec<u8>, Fault>(f),
            },
    {
        self.get_page_from(crate::join_bytes(page, 0), 0)
    }

    /// Fills the sprite-memory buffer from a DMA page copy.
    pub fn set_oamdma(&mut self, data: Vec<u8>)
        requires
            old(self)@.wf(),
            data@.len() == 0x100,
        ensures
            final(self)@.wf(),
            final(self)@ == (BusM { oam: data@, ..old(self)@ }),
    {
        self.oam = data;
    }
}

} // verus!
