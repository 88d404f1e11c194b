//! The NES CPU memory map: 2 KiB of RAM mirrored through the first
//! 8 KiB, the PPU register window (a zero stub here, mirrored every 8
//! bytes), the APU and I/O window (also a stub), and the cartridge from
//! 0x4020 up.

use vstd::prelude::*;

use super::cartridge::Cartridge;
use crate::memory::{Memory, MirroredMemory, RandomAccessMemory};

verus! {

/// A stand-in for the PPU registers: reads yield zero, writes are
/// discarded.
#[derive(Debug, Clone)]
pub struct PpuProxy;

impl Memory for PpuProxy {
    open spec fn inv(&self) -> bool {
        true
    }

    open spec fn spec_read(&self, addr: u16) -> u8 {
        0
    }

    open spec fn spec_writes(&self, addr: u16) -> Set<u16> {
        Set::empty()
    }

    open spec fn spec_length(&self) -> usize {
        0x8
    }

    fn read(&self, addr: u16) -> (r: u8) {
        0
    }

    fn write(&mut self, addr: u16, data: u8) {
        proof {
            assert(forall|a: u16| !self.spec_writes(addr).contains(a));
        }
    }

    fn length(&self) -> (r: usize) {
        0x8
    }
}

/// A stand-in for the APU and I/O registers: reads yield zero, writes
/// are discarded.
#[derive(Debug, Clone)]
pub struct ApuIoProxy;

impl Memory for ApuIoProxy {
    open spec fn inv(&self) -> bool {
        true
    }

    open spec fn spec_read(&self, addr: u16) -> u8 {
        0
    }

    open spec fn spec_writes(&self, addr: u16) -> Set<u16> {
        Set::empty()
    }

    open spec fn spec_length(&self) -> usize {
        0x20
    }

    fn read(&self, addr: u16) -> (r: u8) {
        0
    }

    fn write(&mut self, addr: u16, data: u8) {
        proof {
            assert(forall|a: u16| !self.spec_writes(addr).contains(a));
        }
    }

    fn length(&self) -> (r: usize) {
        0x20
    }
}

/// The composed CPU address space of the NES.
pub struct NesMemoryMap<C: Cartridge> {
    pub mirrored_ram: MirroredMemory<RandomAccessMemory>,
    pub ppu_proxy: MirroredMemory<PpuProxy>,
    pub apu_io_proxy: ApuIoProxy,
    pub cartridge: C,
}

impl<C: Cartridge> NesMemoryMap<C> {
    /// The map over a cartridge: 2 KiB of zeroed RAM behind an 0x07FF
    /// mask, the register stubs, and the cartridge beyond 0x4020.
    pub fn new(cartridge: C) -> (r: Self)
        requires
            cartridge.inv(),
        ensures
            r.inv(),
            r.cartridge == cartridge,
            forall|a: u16| a < 0x4020 ==> r.spec_read(a) == 0,
            forall|a: u16| a >= 0x4020 ==> r.spec_read(a) == cartridge.spec_prg_read(a),
    {
        NesMemoryMap {
            mirrored_ram: MirroredMemory::new(RandomAccessMemory::new(0x0800), 0x07ff, 0x2000),
            ppu_proxy: MirroredMemory::new(PpuProxy, 0x0007, 0x2000),
            apu_io_proxy: ApuIoProxy,
            cartridge,
        }
    }
}

impl<C: Cartridge> Memory for NesMemoryMap<C> {
    open spec fn inv(&self) -> bool {
        &&& self.mirrored_ram.inv()
        &&& self.ppu_proxy.inv()
        &&& self.apu_io_proxy.inv()
        &&& self.cartridge.inv()
    }

    open spec fn spec_read(&self, addr: u16) -> u8 {
        if addr < 0x2000 {
            self.mirrored_ram.spec_read(addr)
        } else if addr < 0x4000 {
            self.ppu_proxy.spec_read((addr - 0x2000) as u16)
        } else if addr < 0x4020 {
            self.apu_io_proxy.spec_read((addr - 0x4000) as u16)
        } else {
            self.cartridge.spec_prg_read(addr)
        }
    }

    open spec fn spec_writes(&self, addr: u16) -> Set<u16> {
        if addr < 0x2000 {
            Set::new(|a: u16| a < 0x2000 && self.mirrored_ram.spec_writes(addr).contains(a))
        } else if addr < 0x4020 {
            Set::empty()
        } else {
            Set::new(|a: u16| a >= 0x4020 && self.cartridge.spec_prg_writes(addr).contains(a))
        }
    }

    open spec fn spec_length(&self) -> usize {
        0x10000
    }

    fn read(&self, addr: u16) -> (r: u8) {
        if addr < 0x2000 {
            self.mirrored_ram.read(addr)
        } else if addr < 0x4000 {
            self.ppu_proxy.read(addr - 0x2000)
        } else if addr < 0x4020 {
            self.apu_io_proxy.read(addr - 0x4000)
        } else {
            self.cartridge.prg_read(addr)
        }
    }

    fn write(&mut self, addr: u16, data: u8) {
        if addr < 0x2000 {
            self.mirrored_ram.write(addr, data);
        } else if addr < 0x4000 {
            self.ppu_proxy.write(addr - 0x2000, data);
        } else if addr < 0x4020 {
            self.apu_io_proxy.write(addr - 0x4000, data);
        } else {
            self.cartridge.prg_write(addr, data);
        }
    }

    fn length(&self) -> (r: usize) {
        0x10000
    }
}

} // verus!
