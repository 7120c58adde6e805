//! Fixed-size, self-aligned memory blocks.
//!
//! A [`Block`] is the unit of acquisition for the allocator: a `size`-byte
//! span of memory whose base address is a multiple of `size`. Self-alignment
//! lets any interior address be mapped back to its owning block by masking
//! off the low bits. The span is carried by an owned byte buffer that is
//! over-allocated so that an aligned base can always be found inside it.

use vstd::prelude::*;

verus! {

/// Size of one block in bytes (a power of two).
pub const BLOCK_SIZE: usize = 32768;

/// Size of one line in bytes (a power of two dividing `BLOCK_SIZE`).
pub const LINE_SIZE: usize = 128;

/// Number of lines in one block.
pub const LINE_COUNT: usize = BLOCK_SIZE / LINE_SIZE;

/// Usable capacity of one block: the block minus one line-map's worth of
/// bytes, kept as headroom for per-block metadata.
pub const BLOCK_CAPACITY: usize = BLOCK_SIZE - LINE_COUNT;

/// Word alignment applied to every returned address.
pub const WORD_ALIGN: usize = 8;

/// Errors surfaced by block acquisition and by the allocation entry points.
#[derive(Clone, Copy, Debug, PartialEq, Eq, Structural)]
pub enum AllocError {
    /// The requested block size is not a power of two.
    InvalidSize,
    /// No memory could be acquired.
    OOM,
    /// The request exceeds the size range this allocator serves.
    Unsupported,
}

/// `n` is a power of two.
pub open spec fn is_power_of_two_spec(n: nat) -> bool
    decreases n,
{
    if n == 0 {
        false
    } else if n == 1 {
        true
    } else {
        n % 2 == 0 && is_power_of_two_spec(n / 2)
    }
}

/// Decides whether `n` is a power of two.
pub fn is_power_of_two(n: usize) -> (r: bool)
    ensures
        r == is_power_of_two_spec(n as nat),
{
    if n == 0 {
        return false;
    }
    let mut m: usize = n;
    while m % 2 == 0
        invariant
            1 <= m,
            is_power_of_two_spec(n as nat) == is_power_of_two_spec(m as nat),
        decreases m,
    {
        m = m / 2;
    }
    m == 1
}

/// Relies on `Vec::as_ptr`: the buffer behind a vector is a single live
/// allocation, so its address is nonzero (a dangling pointer for an empty
/// buffer is the alignment, which is 1 for bytes) and the whole buffer lies
/// within the address space, so adding its length to the base cannot wrap.
#[verifier::external_body]
fn vec_base_address(v: &Vec<u8>) -> (r: usize)
    ensures
        1 <= r,
        r + v@.len() <= usize::MAX,
{
    v.as_ptr() as usize
}

/// Builds a zero-filled byte buffer of the given length.
fn zeroed_buffer(len: usize) -> (v: Vec<u8>)
    ensures
        v@.len() == len,
{
    let mut v: Vec<u8> = Vec::new();
    while v.len() < len
        invariant
            v@.len() <= len,
        decreases len - v@.len(),
    {
        v.push(0);
    }
    v
}

/// One self-aligned block of memory.
///
/// Invariant: `addr % size == 0`, `addr` is nonzero, and `addr + size` does
/// not wrap, so `[addr, addr + size)` is a well-formed span of real memory
/// inside the owned buffer.
pub struct Block {
    backing: Vec<u8>,
    addr: usize,
    size: usize,
}

impl Block {
    /// The block's base address.
    pub closed spec fn spec_addr(&self) -> usize {
        self.addr
    }

    /// The block's size in bytes.
    pub closed spec fn spec_size(&self) -> usize {
        self.size
    }

    /// The self-alignment invariant.
    pub open spec fn wf(&self) -> bool {
        &&& is_power_of_two_spec(self.spec_size() as nat)
        &&& 1 <= self.spec_addr()
        &&& self.spec_addr() % self.spec_size() == 0
        &&& self.spec_addr() + self.spec_size() <= usize::MAX
    }

    /// Acquires one self-aligned block of `size` bytes.
    ///
    /// A size that is not a power of two is rejected before any memory is
    /// acquired. On success the base address is a nonzero multiple of
    /// `size`.
    pub fn new(size: usize) -> (r: Result<Block, AllocError>)
        ensures
            r is Ok <==> (is_power_of_two_spec(size as nat) && 2 * size <= usize::MAX),
            r == Err::<Block, AllocError>(AllocError::InvalidSize) <==> !is_power_of_two_spec(
                size as nat,
            ),
            r matches Err(e) ==> e == AllocError::InvalidSize || e == AllocError::OOM,
            r matches Ok(b) ==> b.wf() && b.spec_size() == size,
    {
        if !is_power_of_two(size) {
            return Err(AllocError::InvalidSize);
        }
        let padded = match size.checked_mul(2) {
            Some(p) => p,
            None => {
                return Err(AllocError::OOM);
            },
        };
        let backing = zeroed_buffer(padded);
        let base = vec_base_address(&backing);
        let rem = base % size;
        let pad: usize = if rem == 0 {
            0
        } else {
            size - rem
        };
        let addr = base + pad;
        proof {
            assert((base + pad) % (size as int) == 0) by {
                vstd::arithmetic::div_mod::lemma_add_mod_noop(
                    base as int,
                    pad as int,
                    size as int,
                );
                if rem != 0 {
                    vstd::arithmetic::div_mod::lemma_mod_self_0(size as int);
                    vstd::arithmetic::div_mod::lemma_mod_twice(base as int, size as int);
                    vstd::arithmetic::div_mod::lemma_mod_twice(pad as int, size as int);
                    vstd::arithmetic::div_mod::lemma_small_mod((size - rem) as nat, size as nat);
                    vstd::arithmetic::div_mod::lemma_add_mod_noop(
                        rem as int,
                        pad as int,
                        size as int,
                    );
                }
            }
        }
        Ok(Block { backing, addr, size })
    }

    /// The block's base address.
    pub fn as_ptr(&self) -> (r: usize)
        ensures
            r == self.spec_addr(),
    {
        self.addr
    }

    /// The block's size in bytes.
    pub fn size(&self) -> (r: usize)
        ensures
            r == self.spec_size(),
    {
        self.size
    }

    /// Releases the block, returning its memory.
    pub fn drop(self) {
    }
}

} // verus!
