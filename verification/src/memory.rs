//! The abstract byte-addressable 16-bit address space the core runs
//! against, and its concrete adapters: flat RAM (indexed modulo its
//! declared size), read-only memory (writes silently discarded), and
//! mirrored memory (address masked before delegation).
//!
//! A memory is modelled by two spec functions: `spec_read` gives the byte
//! a read returns at each address, and `spec_writes` gives, for each
//! written address, the set of addresses whose readable byte becomes the
//! written value (empty for read-only memory, an alias class for mirrored
//! or modulo-indexed memory). `mem_after_writes` then describes the exact
//! effect of any sequence of writes, which is what the processor's
//! contracts are stated over.

use vstd::prelude::*;

verus! {

/// An abstract 16-bit byte-addressable memory. Reads may be synthesized;
/// writes to read-only regions are silently discarded. A write never
/// changes which addresses alias one another (`spec_writes` is a function
/// of the memory's structure, not of its contents).
pub trait Memory: Sized {
    /// Well-formedness of the concrete representation.
    spec fn inv(&self) -> bool;

    /// The byte a read returns at `addr`.
    spec fn spec_read(&self, addr: u16) -> u8;

    /// The set of addresses whose readable byte becomes `data` after a
    /// write of `data` at `addr`; all other addresses keep their byte.
    spec fn spec_writes(&self, addr: u16) -> Set<u16>;

    /// The declared logical size.
    spec fn spec_length(&self) -> usize;

    fn read(&self, addr: u16) -> (r: u8)
        requires
            self.inv(),
        ensures
            r == self.spec_read(addr),
    ;

    fn write(&mut self, addr: u16, data: u8)
        requires
            old(self).inv(),
        ensures
            final(self).inv(),
            forall|w: u16, a: u16|
                old(self).spec_writes(w).contains(a) == final(self).spec_writes(w).contains(a),
            final(self).spec_length() == old(self).spec_length(),
            forall|a: u16|
                final(self).spec_read(a) == if old(self).spec_writes(addr).contains(a) {
                    data
                } else {
                    old(self).spec_read(a)
                },
    ;

    fn length(&self) -> (r: usize)
        requires
            self.inv(),
        ensures
            r == self.spec_length(),
    ;

    /// Two successive bytes combined little-endian; the high byte's
    /// address wraps at the top of the address space.
    fn read_word(&self, addr: u16) -> (r: u16)
        requires
            self.inv(),
        ensures
            r == word_le(
                self.spec_read(addr),
                self.spec_read(if addr == 0xffff { 0u16 } else { (addr + 1) as u16 }),
            ),
    {
        let lo = self.read(addr);
        let hi = self.read(addr.wrapping_add(1));
        (lo as u16) + 256 * (hi as u16)
    }

    /// The byte at `addr` sign-extended to a signed displacement.
    fn read_signed(&self, addr: u16) -> (r: i8)
        requires
            self.inv(),
        ensures
            r == self.spec_read(addr) as i8,
    {
        self.read(addr) as i8
    }
}

/// 16-bit wrapping addition of an integer offset.
pub open spec fn wadd16(x: u16, k: int) -> u16 {
    (((x + k) % 0x10000 + 0x10000) % 0x10000) as u16
}

/// Two bytes combined little-endian.
pub open spec fn word_le(lo: u8, hi: u8) -> u16 {
    (lo + 256 * hi) as u16
}

/// The little-endian word at `addr`, with the high byte's address
/// wrapping at the top of the address space.
pub open spec fn spec_mem_word<M: Memory>(m: M, addr: u16) -> u16 {
    word_le(m.spec_read(addr), m.spec_read(if addr == 0xffff { 0u16 } else { (addr + 1) as u16 }))
}

/// The two memories have the same write-aliasing structure and declared
/// size: a write to either affects the same set of addresses.
pub open spec fn mem_same_wmodel<M: Memory>(m1: M, m2: M) -> bool {
    &&& forall|w: u16, a: u16|
        m1.spec_writes(w).contains(a) == m2.spec_writes(w).contains(a)
    &&& m1.spec_length() == m2.spec_length()
}

/// The byte readable at `a` after performing `writes` (in order) on `m`.
pub open spec fn read_after<M: Memory>(m: M, writes: Seq<(u16, u8)>, a: u16) -> u8
    decreases writes.len(),
{
    if writes.len() == 0 {
        m.spec_read(a)
    } else {
        if m.spec_writes(writes.last().0).contains(a) {
            writes.last().1
        } else {
            read_after(m, writes.drop_last(), a)
        }
    }
}

/// `post` is exactly `pre` after the given sequence of writes: it is
/// still well formed, aliases addresses the same way, and every address
/// reads back per `read_after`.
pub open spec fn mem_after_writes<M: Memory>(pre: M, post: M, writes: Seq<(u16, u8)>) -> bool {
    &&& post.inv()
    &&& mem_same_wmodel(pre, post)
    &&& forall|a: u16| post.spec_read(a) == read_after(pre, writes, a)
}

/// A single write, as the `Memory` trait's `write` describes it, is the
/// one-element case of `mem_after_writes`.
pub proof fn lemma_single_write<M: Memory>(pre: M, post: M, addr: u16, data: u8)
    requires
        post.inv(),
        forall|w: u16, a: u16| pre.spec_writes(w).contains(a) == post.spec_writes(w).contains(a),
        post.spec_length() == pre.spec_length(),
        forall|a: u16|
            post.spec_read(a) == if pre.spec_writes(addr).contains(a) {
                data
            } else {
                pre.spec_read(a)
            },
    ensures
        mem_after_writes(pre, post, seq![(addr, data)]),
{
    let w = seq![(addr, data)];
    assert forall|a: u16| post.spec_read(a) == read_after(pre, w, a) by {
        assert(w.last() == (addr, data));
        assert(w.drop_last() =~= Seq::<(u16, u8)>::empty());
        assert(read_after(pre, w.drop_last(), a) == pre.spec_read(a));
    }
}

/// Write sequences compose: the effect of `w1` followed by `w2` is the
/// effect of their concatenation.
pub proof fn lemma_mem_writes_compose<M: Memory>(
    m0: M,
    m1: M,
    m2: M,
    w1: Seq<(u16, u8)>,
    w2: Seq<(u16, u8)>,
)
    requires
        mem_after_writes(m0, m1, w1),
        mem_after_writes(m1, m2, w2),
    ensures
        mem_after_writes(m0, m2, w1 + w2),
    decreases w2.len(),
{
    if w2.len() == 0 {
        assert(w1 + w2 =~= w1);
        assert(forall|a: u16| m2.spec_read(a) == read_after(m1, w2, a));
        assert(forall|a: u16| read_after(m1, w2, a) == m1.spec_read(a));
    } else {
        let w2h = w2.drop_last();
        // A memory m1h standing after w1 + w2h would read like m2 except
        // for the last write; read_after needs no such witness, only the
        // unfolding below.
        assert(w1 + w2 =~= (w1 + w2h).push(w2.last()));
        assert((w1 + w2).drop_last() =~= w1 + w2h);
        assert forall|a: u16| m2.spec_read(a) == read_after(m0, w1 + w2, a) by {
            lemma_read_after_aux(m0, m1, w1, w2h, a);
            if m0.spec_writes(w2.last().0).contains(a) {
                assert(m1.spec_writes(w2.last().0).contains(a));
            } else {
                assert(!m1.spec_writes(w2.last().0).contains(a));
            }
        }
    }
}

/// Helper: reads after `w1 + w2` on `m0` agree with reads after `w2` on
/// any `m1` that stands after `w1` on `m0`.
pub proof fn lemma_read_after_aux<M: Memory>(
    m0: M,
    m1: M,
    w1: Seq<(u16, u8)>,
    w2: Seq<(u16, u8)>,
    a: u16,
)
    requires
        mem_after_writes(m0, m1, w1),
    ensures
        read_after(m0, w1 + w2, a) == read_after(m1, w2, a),
    decreases w2.len(),
{
    if w2.len() == 0 {
        assert(w1 + w2 =~= w1);
        assert(read_after(m1, w2, a) == m1.spec_read(a));
    } else {
        assert((w1 + w2).last() == w2.last());
        assert((w1 + w2).drop_last() =~= w1 + w2.drop_last());
        lemma_read_after_aux(m0, m1, w1, w2.drop_last(), a);
    }
}

/// Flat random-access memory: a backing byte vector indexed modulo its
/// declared size.
#[derive(Debug, Clone)]
pub struct RandomAccessMemory {
    pub contents: Vec<u8>,
}

impl RandomAccessMemory {
    /// A zero-filled flat memory of the given size.
    pub fn new(size: usize) -> (r: Self)
        requires
            size > 0,
        ensures
            r.inv(),
            r.spec_length() == size,
            forall|a: u16| r.spec_read(a) == 0,
    {
        let mut contents: Vec<u8> = Vec::new();
        while contents.len() < size
            invariant
                contents.len() <= size,
                forall|i: int| 0 <= i < contents.len() ==> contents[i] == 0,
            decreases size - contents.len(),
        {
            contents.push(0);
        }
        RandomAccessMemory { contents }
    }
}

impl Memory for RandomAccessMemory {
    open spec fn inv(&self) -> bool {
        self.contents.len() > 0
    }

    open spec fn spec_read(&self, addr: u16) -> u8 {
        self.contents[addr as int % self.contents.len() as int]
    }

    open spec fn spec_writes(&self, addr: u16) -> Set<u16> {
        Set::new(
            |a: u16|
                a as int % self.contents.len() as int == addr as int % self.contents.len() as int,
        )
    }

    open spec fn spec_length(&self) -> usize {
        self.contents.len()
    }

    fn read(&self, addr: u16) -> (r: u8) {
        let i = (addr as usize) % self.contents.len();
        self.contents[i]
    }

    fn write(&mut self, addr: u16, data: u8) {
        let i = (addr as usize) % self.contents.len();
        self.contents.set(i, data);
    }

    fn length(&self) -> (r: usize) {
        self.contents.len()
    }
}

/// Read-only memory: reads from a backing vector (zero beyond its end),
/// writes are silently discarded, never an error.
#[derive(Debug, Clone)]
pub struct ReadOnlyMemory {
    pub contents: Vec<u8>,
}

impl ReadOnlyMemory {
    /// A zero-filled read-only memory of the given size.
    pub fn new(size: u16) -> (r: Self)
        ensures
            r.inv(),
            r.spec_length() == size,
            forall|a: u16| r.spec_read(a) == 0,
    {
        let mut contents: Vec<u8> = Vec::new();
        while contents.len() < size as usize
            invariant
                contents.len() <= size as usize,
                forall|i: int| 0 <= i < contents.len() ==> contents[i] == 0,
            decreases size as usize - contents.len(),
        {
            contents.push(0);
        }
        ReadOnlyMemory { contents }
    }

    /// A read-only memory over the given backing bytes.
    pub fn from_contents(contents: Vec<u8>) -> (r: Self)
        ensures
            r.inv(),
            r.contents == contents,
    {
        ReadOnlyMemory { contents }
    }
}

impl Memory for ReadOnlyMemory {
    open spec fn inv(&self) -> bool {
        true
    }

    open spec fn spec_read(&self, addr: u16) -> u8 {
        if (addr as int) < self.contents.len() {
            self.contents[addr as int]
        } else {
            0
        }
    }

    open spec fn spec_writes(&self, addr: u16) -> Set<u16> {
        Set::empty()
    }

    open spec fn spec_length(&self) -> usize {
        self.contents.len()
    }

    fn read(&self, addr: u16) -> (r: u8) {
        if (addr as usize) < self.contents.len() {
            self.contents[addr as usize]
        } else {
            0
        }
    }

    fn write(&mut self, addr: u16, data: u8) {
        proof {
            assert(forall|a: u16| !self.spec_writes(addr).contains(a));
        }
    }

    fn length(&self) -> (r: usize) {
        self.contents.len()
    }
}

/// A memory that wraps another, applying `addr & mask` before
/// delegation, and reports a configured logical size.
#[derive(Debug, Clone)]
pub struct MirroredMemory<T: Memory> {
    pub underlying: T,
    pub mask: u16,
    pub size: usize,
}

impl<T: Memory> MirroredMemory<T> {
    pub fn new(underlying: T, mask: u16, size: usize) -> (r: Self)
        ensures
            r.underlying == underlying,
            r.mask == mask,
            r.size == size,
    {
        MirroredMemory { underlying, mask, size }
    }
}

impl<T: Memory> Memory for MirroredMemory<T> {
    open spec fn inv(&self) -> bool {
        self.underlying.inv()
    }

    open spec fn spec_read(&self, addr: u16) -> u8 {
        self.underlying.spec_read(addr & self.mask)
    }

    open spec fn spec_writes(&self, addr: u16) -> Set<u16> {
        Set::new(|a: u16| self.underlying.spec_writes(addr & self.mask).contains(a & self.mask))
    }

    open spec fn spec_length(&self) -> usize {
        self.size
    }

    fn read(&self, addr: u16) -> (r: u8) {
        self.underlying.read(addr & self.mask)
    }

    fn write(&mut self, addr: u16, data: u8) {
        self.underlying.write(addr & self.mask, data);
    }

    fn length(&self) -> (r: usize) {
        self.size
    }
}

} // verus!
