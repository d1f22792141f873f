//! The boundary allocator: a single untyped byte arena shared by the host and
//! the library. The host stages password and salt bytes in it before a call
//! and reads output bytes from it afterwards; the hash operation allocates
//! its result buffer from the same arena.
//!
//! Every address handed out is aligned to the platform's natural word
//! alignment. The arena is a bump allocator with roll-back: releasing the
//! most recently allocated buffer with its exact `(address, size)` pair
//! reclaims it; releasing any other pair leaves the arena unchanged, which is
//! a defined, harmless reading of a contract that otherwise trusts its caller
//! completely.

use vstd::prelude::*;

verus! {

/// The alignment, in bytes, of every address the arena hands out: the
/// platform's natural word alignment.
pub const WORD_ALIGN: usize = 8;

/// `x` rounded up to the next multiple of the word alignment.
pub open spec fn spec_align_up(x: int) -> int {
    ((x + WORD_ALIGN - 1) / (WORD_ALIGN as int)) * (WORD_ALIGN as int)
}

/// Rounding up to the word alignment moves an address forward by less than
/// one word, lands on a word boundary, and is idempotent.
pub proof fn lemma_align_up_properties(x: int)
    requires
        0 <= x,
    ensures
        x <= spec_align_up(x) < x + WORD_ALIGN,
        spec_align_up(x) % (WORD_ALIGN as int) == 0,
        spec_align_up(spec_align_up(x)) == spec_align_up(x),
{
    let w = WORD_ALIGN as int;
    let q = (x + w - 1) / w;
    assert(q * w == spec_align_up(x));
    assert(x + w - 1 == w * q + ((x + w - 1) % w)) by (nonlinear_arith)
        requires q == (x + w - 1) / w && w == 8 && 0 <= x;
    assert(0 <= (x + w - 1) % w < w) by (nonlinear_arith)
        requires w == 8 && 0 <= x;
    assert((q * w) % w == 0) by (nonlinear_arith)
        requires w == 8;
    assert((q * w + w - 1) / w == q) by (nonlinear_arith)
        requires w == 8 && 0 <= q;
}

/// The single byte arena backing the boundary. `next` is the bump pointer:
/// everything below it is handed out or was handed out, everything at or
/// above it inside `mem` is stale space reclaimed by roll-back.
pub struct Arena {
    mem: Vec<u8>,
    next: usize,
}

impl Arena {
    /// The bytes of the arena, as far as it has grown.
    pub closed spec fn bytes(self) -> Seq<u8> {
        self.mem@
    }

    /// The bump pointer: the lowest address not currently handed out.
    pub closed spec fn next(self) -> int {
        self.next as int
    }

    /// The bump pointer never points past the backing bytes.
    pub closed spec fn wf(self) -> bool {
        self.next <= self.mem@.len()
    }

    /// A request of `size` bytes can be satisfied when the aligned address
    /// and the region after it still fit the address space.
    pub open spec fn spec_can_allocate(next: int, size: int) -> bool {
        spec_align_up(next) + size <= usize::MAX
    }

    /// A well-formed arena's bump pointer lies within its bytes: what
    /// `wf()` guarantees, stated for callers outside this module.
    pub proof fn lemma_wf_bounds(self)
        requires
            self.wf(),
        ensures
            0 <= self.next() <= self.bytes().len(),
    {
    }

    /// An empty arena.
    pub fn new() -> (r: Arena)
        ensures
            r.wf(),
            r.next() == 0,
            r.bytes() == Seq::<u8>::empty(),
    {
        Arena { mem: Vec::new(), next: 0 }
    }

    /// Requests `size` bytes aligned to the word alignment and returns the
    /// address of the first byte, or `None` when the underlying memory
    /// cannot satisfy the request. Fresh bytes are zeroed; nothing below the
    /// returned address changes.
    pub fn allocate(&mut self, size: usize) -> (r: Option<usize>)
        requires
            old(self).wf(),
        ensures
            final(self).wf(),
            (r is Some) == Self::spec_can_allocate(old(self).next(), size as int),
            r is None ==> *final(self) == *old(self),
            r matches Some(addr) ==> {
                &&& addr == spec_align_up(old(self).next())
                &&& final(self).next() == addr + size
                &&& final(self).bytes().len() >= old(self).bytes().len()
                &&& final(self).bytes().len() >= addr + size
                &&& final(self).bytes().len() == if addr + size > old(self).bytes().len() {
                    addr + size
                } else {
                    old(self).bytes().len() as int
                }
                &&& final(self).bytes().subrange(0, old(self).bytes().len() as int) == old(self).bytes()
                &&& forall|i: int|
                    old(self).bytes().len() <= i < final(self).bytes().len() ==> final(self).bytes()[i] == 0u8
            },
    {
        proof {
            lemma_align_up_properties(self.next as int);
        }
        let rem: usize = self.next % WORD_ALIGN;
        let pad: usize = if rem == 0 {
            0
        } else {
            WORD_ALIGN - rem
        };
        assert(self.next + pad == spec_align_up(self.next as int)) by {
            let w = WORD_ALIGN as int;
            let x = self.next as int;
            assert(x % w == rem as int);
            assert(x <= spec_align_up(x) < x + w);
            assert(spec_align_up(x) % w == 0);
            if rem == 0 {
                assert(x % w == 0);
                assert(spec_align_up(x) == x) by (nonlinear_arith)
                    requires
                        w == 8,
                        0 <= x,
                        x % w == 0,
                        spec_align_up(x) % w == 0,
                        x <= spec_align_up(x) < x + w,
                ;
            } else {
                assert(spec_align_up(x) == x + (w - x % w)) by (nonlinear_arith)
                    requires
                        w == 8,
                        0 <= x,
                        x % w != 0,
                        spec_align_up(x) % w == 0,
                        x <= spec_align_up(x) < x + w,
                ;
            }
        }
        let addr: usize = match self.next.checked_add(pad) {
            Some(a) => a,
            None => {
                return None;
            },
        };
        let end: usize = match addr.checked_add(size) {
            Some(e) => e,
            None => {
                return None;
            },
        };
        while self.mem.len() < end
            invariant
                end <= usize::MAX,
                self.mem@.len() <= end || self.mem@.len() == old(self).bytes().len(),
                self.mem@.len() >= old(self).bytes().len(),
                self.mem@.subrange(0, old(self).bytes().len() as int) == old(self).bytes(),
                forall|i: int|
                    old(self).bytes().len() <= i < self.mem@.len() ==> self.mem@[i] == 0u8,
                self.next == old(self).next(),
            decreases end - self.mem.len(),
        {
            self.mem.push(0u8);
        }
        self.next = end;
        proof {
            assert(self.bytes().subrange(0, old(self).bytes().len() as int) == old(self).bytes());
        }
        Some(addr)
    }

    /// Releases the region previously obtained with exactly this
    /// `(address, size)` pair. Only the most recently allocated region is
    /// actually reclaimed, by rolling the bump pointer back; any other pair
    /// leaves the arena unchanged.
    pub fn deallocate(&mut self, addr: usize, size: usize)
        requires
            old(self).wf(),
        ensures
            final(self).wf(),
            addr + size == old(self).next() ==> {
                &&& final(self).next() == addr
                &&& final(self).bytes() == old(self).bytes()
            },
            addr + size != old(self).next() ==> *final(self) == *old(self),
    {
        if size <= self.next && addr == self.next - size {
            self.next = addr;
        }
    }

    /// Copies `data` into the arena at `addr`. The region must lie inside
    /// the arena's bytes.
    pub fn write(&mut self, addr: usize, data: &[u8])
        requires
            old(self).wf(),
            addr + data@.len() <= old(self).bytes().len(),
        ensures
            final(self).wf(),
            final(self).next() == old(self).next(),
            final(self).bytes().len() == old(self).bytes().len(),
            final(self).bytes().subrange(addr as int, addr + data@.len()) == data@,
            forall|i: int|
                0 <= i < final(self).bytes().len() && !(addr <= i < addr + data@.len())
                    ==> final(self).bytes()[i] == old(self).bytes()[i],
    {
        let mem_len: usize = self.mem.len();
        let mut i: usize = 0;
        while i < data.len()
            invariant
                i <= data@.len(),
                addr + data@.len() <= mem_len,
                mem_len == self.mem@.len(),
                self.mem@.len() == old(self).bytes().len(),
                self.next == old(self).next(),
                self.mem@.subrange(addr as int, addr + i) == data@.subrange(0, i as int),
                forall|j: int|
                    0 <= j < self.mem@.len() && !(addr <= j < addr + i)
                        ==> self.mem@[j] == old(self).bytes()[j],
            decreases data@.len() - i,
        {
            self.mem[addr + i] = data[i];
            i += 1;
            proof {
                assert(self.mem@.subrange(addr as int, addr + i) =~= data@.subrange(
                    0,
                    i as int,
                ));
            }
        }
        proof {
            assert(self.mem@.subrange(addr as int, addr + data@.len()) =~= data@);
        }
    }

    /// Reads `len` bytes out of the arena at `addr`. The region must lie
    /// inside the arena's bytes.
    pub fn read(&self, addr: usize, len: usize) -> (r: Vec<u8>)
        requires
            self.wf(),
            addr + len <= self.bytes().len(),
        ensures
            r@ == self.bytes().subrange(addr as int, addr + len),
    {
        let mem_len: usize = self.mem.len();
        let mut r: Vec<u8> = Vec::new();
        let mut i: usize = 0;
        while i < len
            invariant
                i <= len,
                addr + len <= mem_len,
                mem_len == self.mem@.len(),
                r@ == self.mem@.subrange(addr as int, addr + i),
            decreases len - i,
        {
            r.push(self.mem[addr + i]);
            i += 1;
            proof {
                assert(r@ =~= self.mem@.subrange(addr as int, addr + i));
            }
        }
        r
    }

    /// The length of the arena's bytes, for the host to stage inputs against.
    pub fn size(&self) -> (r: usize)
        ensures
            r == self.bytes().len(),
    {
        self.mem.len()
    }
}

/// Boundary discipline: allocating a buffer and releasing it with the exact
/// same pair at once leaves the arena in a state indistinguishable, in
/// subsequent allocation behavior, from never having allocated. `a0` is the
/// arena before, `a1` with `addr` the outcome of `allocate(size)`, `a2` the
/// outcome of `deallocate(addr, size)`; any later request of any size then
/// succeeds exactly when it would have succeeded on `a0`, and returns the
/// same address.
pub proof fn lemma_allocate_then_deallocate_invisible(
    a0: Arena,
    a1: Arena,
    a2: Arena,
    size: usize,
    addr: usize,
    later_size: int,
)
    requires
        0 <= a0.next(),
        addr == spec_align_up(a0.next()),
        a1.next() == addr + size,
        a2.next() == addr,
    ensures
        spec_align_up(a2.next()) == spec_align_up(a0.next()),
        Arena::spec_can_allocate(a2.next(), later_size) == Arena::spec_can_allocate(
            a0.next(),
            later_size,
        ),
{
    lemma_align_up_properties(a0.next());
    lemma_align_up_properties(a2.next());
}

} // verus!
