//! A stub of the picture processing unit: its address space (pattern
//! tables from CHR-ROM, nametable RAM, palette RAM) and object
//! attribute memory. Rendering is outside this crate; the structures
//! exist so a console owns the PPU-side state.

use vstd::prelude::*;

use crate::memory::{Memory, MirroredMemory, RandomAccessMemory, ReadOnlyMemory};

verus! {

/// The PPU's address space: CHR-ROM below 0x2000, nametable RAM up to
/// 0x2FFF, palette RAM at 0x3F00..=0x3FFF. The 0x3000..=0x3EFF mirror
/// region and addresses from 0x4000 up are outside this stub's domain.
pub struct PpuMemory {
    pub ram: RandomAccessMemory,
    pub chr: ReadOnlyMemory,
    pub palette_ram: MirroredMemory<RandomAccessMemory>,
}

impl PpuMemory {
    pub open spec fn inv(&self) -> bool {
        &&& self.ram.inv()
        &&& self.palette_ram.inv()
    }

    /// An address this stub can serve.
    pub open spec fn spec_in_range(addr: u16) -> bool {
        addr < 0x3000 || (0x3f00 <= addr && addr < 0x4000)
    }

    pub open spec fn spec_read(&self, addr: u16) -> u8 {
        if addr < 0x2000 {
            self.chr.spec_read(addr)
        } else if addr < 0x3000 {
            self.ram.spec_read(addr & 0x1fff)
        } else {
            self.palette_ram.spec_read(addr & 0x00ff)
        }
    }

    /// The PPU space over a cartridge's CHR image, with zeroed
    /// nametable and palette RAM.
    pub fn new(chr: ReadOnlyMemory) -> (r: Self)
        ensures
            r.inv(),
            r.chr == chr,
            forall|a: u16| 0x2000 <= a < 0x3000 ==> r.spec_read(a) == 0,
            forall|a: u16| 0x3f00 <= a < 0x4000 ==> r.spec_read(a) == 0,
    {
        PpuMemory {
            ram: RandomAccessMemory::new(0x1000),
            chr,
            palette_ram: MirroredMemory::new(RandomAccessMemory::new(0x0020), 0x001f, 0x0100),
        }
    }

    pub fn read(&self, addr: u16) -> (r: u8)
        requires
            self.inv(),
            PpuMemory::spec_in_range(addr),
        ensures
            r == self.spec_read(addr),
    {
        if addr < 0x2000 {
            self.chr.read(addr)
        } else if addr < 0x3000 {
            self.ram.read(addr & 0x1fff)
        } else {
            self.palette_ram.read(addr & 0x00ff)
        }
    }

    /// Writes to the CHR region are discarded (CHR-ROM); the RAM
    /// regions take the byte.
    pub fn write(&mut self, addr: u16, data: u8)
        requires
            old(self).inv(),
            PpuMemory::spec_in_range(addr),
        ensures
            final(self).inv(),
            forall|a: u16| a < 0x2000 ==> final(self).spec_read(a) == old(self).spec_read(a),
            addr < 0x2000 ==> forall|a: u16|
                final(self).spec_read(a) == old(self).spec_read(a),
    {
        if addr < 0x2000 {
            self.chr.write(addr, data);
        } else if addr < 0x3000 {
            self.ram.write(addr & 0x1fff, data);
        } else {
            self.palette_ram.write(addr & 0x00ff, data);
        }
    }
}

/// The picture processing unit: its address space and the 256 bytes of
/// object attribute memory.
pub struct Ppu {
    pub memory: PpuMemory,
    pub oam: Vec<u8>,
}

impl Ppu {
    pub fn new(chr: ReadOnlyMemory) -> (r: Self)
        ensures
            r.memory.inv(),
            r.memory.chr == chr,
            r.oam.len() == 0x100,
            forall|k: int| 0 <= k < 0x100 ==> r.oam[k] == 0,
    {
        let mut oam: Vec<u8> = Vec::new();
        while oam.len() < 0x100
            invariant
                oam.len() <= 0x100,
                forall|k: int| 0 <= k < oam.len() ==> oam[k] == 0,
            decreases 0x100 - oam.len(),
        {
            oam.push(0);
        }
        Ppu { memory: PpuMemory::new(chr), oam }
    }
}

} // verus!
