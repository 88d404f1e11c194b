//! A cycle-accurate interpreter core for the MOS 6502 eight-bit
//! microprocessor: processor state, a pluggable 16-bit memory interface,
//! addressing-mode decoders, the full opcode dispatch table (official and
//! common undocumented opcodes), and the operations themselves, together
//! with machine-checked contracts for each step of execution.

pub mod decompiler;
pub mod flags;
pub mod instructions;
pub mod laws;
pub mod memory;
pub mod nintendo;
pub mod ops;
pub mod processor;
pub mod semantics;
pub mod step;
pub mod text;
pub mod trace;

pub use decompiler::Decompiler;
pub use flags::Flags;
pub use memory::{Memory, MirroredMemory, RandomAccessMemory, ReadOnlyMemory};
pub use processor::{Core, Processor};
