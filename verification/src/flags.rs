//! The P (processor status) register: six stored flag bits with pack and
//! unpack operations. The B and U bits have no storage; they exist only in
//! pushed copies of the register (bits 4 and 5 of the packed byte).

use vstd::prelude::*;

verus! {

/// The six architecturally stored status flags of the 6502.
#[derive(Default, Clone, Copy, Debug, PartialEq, Eq, Structural)]
pub struct Flags {
    pub c: bool,
    pub z: bool,
    pub i: bool,
    pub d: bool,
    pub v: bool,
    pub n: bool,
}

/// The packed status byte: bit 0 C, bit 1 Z, bit 2 I, bit 3 D, bit 6 V,
/// bit 7 N. Bits 4 (B) and 5 (U) are always 0 here; pushes OR them in.
pub open spec fn spec_flags_byte(f: Flags) -> u8 {
    (if f.c { 0x01u8 } else { 0 })
        | (if f.z { 0x02u8 } else { 0 })
        | (if f.i { 0x04u8 } else { 0 })
        | (if f.d { 0x08u8 } else { 0 })
        | (if f.v { 0x40u8 } else { 0 })
        | (if f.n { 0x80u8 } else { 0 })
}

/// The flags recovered from a packed byte; bits 4 and 5 are ignored.
pub open spec fn spec_flags_from_byte(byte: u8) -> Flags {
    Flags {
        c: byte & 0x01 != 0,
        z: byte & 0x02 != 0,
        i: byte & 0x04 != 0,
        d: byte & 0x08 != 0,
        v: byte & 0x40 != 0,
        n: byte & 0x80 != 0,
    }
}

/// The flags with Z and N updated from a byte-width result, as every
/// flag-setting operation does: Z iff the result is zero, N iff bit 7 of
/// the result is set.
pub open spec fn spec_zn(f: Flags, r: u8) -> Flags {
    Flags { z: r == 0, n: r & 0x80 != 0, ..f }
}

impl Flags {
    /// All six flags clear.
    pub open spec fn spec_clear() -> Flags {
        Flags { c: false, z: false, i: false, d: false, v: false, n: false }
    }

    pub fn set_z(&mut self, n: u8)
        ensures
            *final(self) == (Flags { z: n == 0, ..*old(self) }),
    {
        self.z = n == 0;
    }

    pub fn set_n(&mut self, n: u8)
        ensures
            *final(self) == (Flags { n: n & 0x80 != 0, ..*old(self) }),
    {
        self.n = n & 0x80 != 0;
    }

    pub fn get_byte(&self) -> (r: u8)
        ensures
            r == spec_flags_byte(*self),
    {
        (if self.c { 0x01u8 } else { 0 })
            | (if self.z { 0x02u8 } else { 0 })
            | (if self.i { 0x04u8 } else { 0 })
            | (if self.d { 0x08u8 } else { 0 })
            | (if self.v { 0x40u8 } else { 0 })
            | (if self.n { 0x80u8 } else { 0 })
    }

    pub fn set_byte(&mut self, byte: u8)
        ensures
            *final(self) == spec_flags_from_byte(byte),
    {
        self.c = byte & 0x01 != 0;
        self.z = byte & 0x02 != 0;
        self.i = byte & 0x04 != 0;
        self.d = byte & 0x08 != 0;
        self.v = byte & 0x40 != 0;
        self.n = byte & 0x80 != 0;
    }
}

/// Unpacking a packed status byte recovers every stored flag, whatever
/// bits 4 and 5 were set to in the pushed copy: the round trip through
/// `get_byte`, an OR with 0x30 (as PHP and BRK perform), and `set_byte`
/// is the identity on the six stored flags.
pub proof fn lemma_flags_byte_round_trip(f: Flags, extra: u8)
    requires
        extra & 0xcf == 0,
    ensures
        spec_flags_from_byte(spec_flags_byte(f) | extra) == f,
{
    let cb: u8 = if f.c { 0x01u8 } else { 0 };
    let zb: u8 = if f.z { 0x02u8 } else { 0 };
    let ib: u8 = if f.i { 0x04u8 } else { 0 };
    let db: u8 = if f.d { 0x08u8 } else { 0 };
    let vb: u8 = if f.v { 0x40u8 } else { 0 };
    let nb: u8 = if f.n { 0x80u8 } else { 0 };
    let b = (cb | zb | ib | db | vb | nb) | extra;
    assert((b & 0x01 != 0) == (cb == 0x01) && (b & 0x02 != 0) == (zb == 0x02) && (b & 0x04
        != 0) == (ib == 0x04) && (b & 0x08 != 0) == (db == 0x08) && (b & 0x40 != 0) == (vb
        == 0x40) && (b & 0x80 != 0) == (nb == 0x80)) by (bit_vector)
        requires
            b == (cb | zb | ib | db | vb | nb) | extra,
            extra & 0xcf == 0,
            cb == 0x01 || cb == 0,
            zb == 0x02 || zb == 0,
            ib == 0x04 || ib == 0,
            db == 0x08 || db == 0,
            vb == 0x40 || vb == 0,
            nb == 0x80 || nb == 0,
    ;
}

} // verus!
