//! The iNES image parser: header validation and extraction of the PRG
//! and CHR images into an NROM cartridge.

use vstd::prelude::*;

use super::cartridge::NROMCartridge;
use crate::nintendo::cartridge::Cartridge;

verus! {

/// A valid iNES image for this parser: the "NES" magic and 0x1A, an
/// NROM PRG size of one or two 16 KiB banks, and enough bytes for the
/// declared PRG and CHR images (trainers are not supported).
pub open spec fn spec_ines_valid(rom: Seq<u8>) -> bool {
    &&& rom.len() >= 16
    &&& rom[0] == 0x4e
    &&& rom[1] == 0x45
    &&& rom[2] == 0x53
    &&& rom[3] == 0x1a
    &&& (rom[4] == 1 || rom[4] == 2)
    &&& rom.len() >= 16 + 0x4000 * rom[4] + 0x2000 * rom[5]
}

/// Whether an image can be parsed; `parse` requires exactly this.
pub fn ines_valid(rom: &[u8]) -> (r: bool)
    ensures
        r == spec_ines_valid(rom@),
{
    if rom.len() < 16 {
        return false;
    }
    if !(rom[0] == 0x4e && rom[1] == 0x45 && rom[2] == 0x53 && rom[3] == 0x1a) {
        return false;
    }
    if !(rom[4] == 1 || rom[4] == 2) {
        return false;
    }
    let need: usize = 16 + 0x4000 * (rom[4] as usize) + 0x2000 * (rom[5] as usize);
    rom.len() >= need
}

/// Parse an iNES image into an NROM cartridge: the PRG image follows
/// the 16-byte header, the CHR image follows the PRG image. The PRG
/// space repeats the image through the whole 0x8000..=0xFFFF window
/// (mirroring a 16 KiB bank); reads below 0x8000 yield zero.
pub fn parse(rom: &[u8]) -> (r: NROMCartridge)
    requires
        spec_ines_valid(rom@),
    ensures
        r.inv(),
        forall|a: u16|
            r.spec_prg_read(a) == if a < 0x8000 {
                0u8
            } else {
                rom@[16 + ((a - 0x8000) as int % (0x4000 * rom@[4] as int))]
            },
        forall|a: u16|
            r.spec_chr_read(a) == if (a as int) < 0x2000 * rom@[5] {
                rom@[16 + 0x4000 * rom@[4] + a as int]
            } else {
                0u8
            },
{
    let prg_size: usize = 0x4000 * (rom[4] as usize);
    let chr_size: usize = 0x2000 * (rom[5] as usize);
    let mut prg: Vec<u8> = Vec::new();
    let mut i: usize = 0;
    while i < prg_size
        invariant
            spec_ines_valid(rom@),
            prg_size == 0x4000 * rom@[4],
            i <= prg_size,
            prg.len() == i,
            forall|k: int| 0 <= k < i ==> prg[k] == rom@[16 + k],
        decreases prg_size - i,
    {
        prg.push(rom[16 + i]);
        i += 1;
    }
    let mut chr: Vec<u8> = Vec::new();
    let mut j: usize = 0;
    while j < chr_size
        invariant
            spec_ines_valid(rom@),
            prg_size == 0x4000 * rom@[4],
            chr_size == 0x2000 * rom@[5],
            j <= chr_size,
            chr.len() == j,
            forall|k: int| 0 <= k < j ==> chr[k] == rom@[16 + prg_size + k],
        decreases chr_size - j,
    {
        chr.push(rom[16 + prg_size + j]);
        j += 1;
    }
    NROMCartridge::new(prg, chr)
}

} // verus!
