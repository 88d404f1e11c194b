//! The trace formatter: one line of pre-execution state per
//! instruction, compatible with reference execution logs —
//! `PC  A:xx X:xx Y:xx P:pp SP:xx PPU:ddd,ddd CYC:n`, where `pp` is
//! the packed status byte, the PPU dot clock runs at three times the
//! CPU clock over 341-dot scanlines, and `CYC` is the cumulative cycle
//! count.

use vstd::prelude::*;

use crate::flags::spec_flags_byte;
use crate::memory::Memory;
use crate::processor::{Core, Processor};
use crate::text::{
    push_dec, push_hex2_upper, push_hex4_upper, push_pad3, spec_dec, spec_hex2_upper,
    spec_hex4_upper, spec_pad3,
};

verus! {

impl Core {
    /// The register-file part of a trace line.
    pub open spec fn spec_status_text(self) -> Seq<char> {
        "A:"@ + spec_hex2_upper(self.a) + " X:"@ + spec_hex2_upper(self.x) + " Y:"@
            + spec_hex2_upper(self.y) + " P:"@ + spec_hex2_upper(spec_flags_byte(self.f))
            + " SP:"@ + spec_hex2_upper(self.sp)
    }

    pub fn status_text(&self) -> (r: String)
        ensures
            r@ == self.spec_status_text(),
    {
        let mut s = String::new();
        s.append("A:");
        push_hex2_upper(&mut s, self.a);
        s.append(" X:");
        push_hex2_upper(&mut s, self.x);
        s.append(" Y:");
        push_hex2_upper(&mut s, self.y);
        s.append(" P:");
        let p = self.f.get_byte();
        push_hex2_upper(&mut s, p);
        s.append(" SP:");
        push_hex2_upper(&mut s, self.sp);
        s
    }
}

impl<T: Memory> Processor<T> {
    /// The state part of a trace line: registers, the PPU dot position
    /// implied by the cycle counter, and the cycle counter itself.
    pub open spec fn spec_trace_text(self) -> Seq<char> {
        self.core.spec_status_text() + " PPU:"@ + spec_pad3((self.cycles * 3) as int / 341) + ","@
            + spec_pad3((self.cycles * 3) as int % 341) + " CYC:"@ + spec_dec(self.cycles as int)
    }

    pub fn trace_text(&self) -> (r: String)
        requires
            self.cycles * 3 <= usize::MAX,
        ensures
            r@ == self.spec_trace_text(),
    {
        let ppu_cycles = self.cycles * 3;
        let mut s = self.core.status_text();
        s.append(" PPU:");
        push_pad3(&mut s, ppu_cycles / 341);
        s.append(",");
        push_pad3(&mut s, ppu_cycles % 341);
        s.append(" CYC:");
        push_dec(&mut s, self.cycles);
        s
    }

    /// A full trace line for the instruction about to execute at `pc`.
    pub fn trace_line(&self, pc: u16) -> (r: String)
        requires
            self.cycles * 3 <= usize::MAX,
        ensures
            r@ == spec_hex4_upper(pc) + "  "@ + self.spec_trace_text(),
    {
        let mut s = String::new();
        push_hex4_upper(&mut s, pc);
        s.append("  ");
        let t = self.trace_text();
        s.append(t.as_str());
        s
    }
}

} // verus!
