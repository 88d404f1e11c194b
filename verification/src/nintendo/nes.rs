//! The console: a processor bound to the NES memory map over a parsed
//! NROM cartridge, plus the PPU stub over the same image's CHR data.

use vstd::prelude::*;

use super::cartridge::{Cartridge, NROMCartridge};
use super::ines;
use super::memory::NesMemoryMap;
use super::ppu::Ppu;
use crate::memory::{Memory, ReadOnlyMemory};
use crate::processor::{Core, Processor};

verus! {

/// A Nintendo Entertainment System: CPU with its memory map, and the
/// PPU stub.
pub struct Nes {
    pub cpu: Processor<NesMemoryMap<NROMCartridge>>,
    pub ppu: Ppu,
}

impl Nes {
    /// A console booted from an iNES image: the CPU is at reset over
    /// the parsed cartridge, RAM is zeroed, and the cartridge's PRG
    /// image is visible from 0x8000 up. The image must be valid, as
    /// `ines_valid` checks.
    pub fn new(rom: &[u8]) -> (r: Self)
        requires
            ines::spec_ines_valid(rom@),
        ensures
            r.cpu.memory.inv(),
            r.cpu.core == Core::spec_reset(),
            !r.cpu.jumped,
            r.cpu.cycles == 0,
            !r.cpu.decimal_enabled,
            forall|a: u16| a < 0x4020 ==> r.cpu.memory.spec_read(a) == 0,
            forall|a: u16|
                a >= 0x8000 ==> r.cpu.memory.spec_read(a) == rom@[16 + ((a - 0x8000) as int % (
                0x4000 * rom@[4] as int))],
    {
        let cartridge = ines::parse(rom);
        let chr = ReadOnlyMemory::from_contents(cartridge.chr_rom.contents.clone());
        let ppu = Ppu::new(chr);
        let memory_map = NesMemoryMap::new(cartridge);
        let cpu = Processor::with_memory(memory_map);
        Nes { cpu, ppu }
    }
}

} // verus!
