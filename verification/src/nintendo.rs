//! The Nintendo Entertainment System around the core: NROM cartridges,
//! the iNES image parser, the CPU memory map, the PPU stub, and the
//! console that binds them together.

pub mod cartridge;
pub mod ines;
pub mod memory;
pub mod nes;
pub mod ppu;

pub use ines::parse;
pub use memory::NesMemoryMap;
pub use nes::Nes;
