//! An append-only list stored in doubling chunks.
//!
//! Elements live in a vector of chunks: the first chunk holds sixteen
//! elements and every later chunk doubles the size of the one before it, so
//! the chunk holding an index — and the index's position inside it — follow
//! from the floor logarithm of the index alone. Chunks are allocated at
//! their full size the moment they are needed and earlier chunks are never
//! touched again, so an element, once pushed, never moves.

use vstd::prelude::*;
use vstd::arithmetic::power2::pow2;

verus! {

/// Number of elements in the first chunk; every later chunk doubles.
pub const FIRST_CHUNK_SIZE: usize = 16;

/// Floor of the base-two logarithm.
pub open spec fn slog2(n: nat) -> nat
    decreases n,
{
    if n < 2 {
        0
    } else {
        1 + slog2(n / 2)
    }
}

/// Number of elements in chunk `chunk_id`.
pub open spec fn spec_chunk_size(chunk_id: nat) -> nat {
    (FIRST_CHUNK_SIZE as nat) * pow2(chunk_id)
}

/// Index of the first element stored in chunk `chunk_id`.
pub open spec fn spec_chunk_start(chunk_id: nat) -> nat {
    ((FIRST_CHUNK_SIZE as nat) * pow2(chunk_id) - FIRST_CHUNK_SIZE) as nat
}

/// The chunk holding element `index`.
pub open spec fn spec_index_chunk(index: nat) -> nat {
    (slog2(index + FIRST_CHUNK_SIZE as nat) - 4) as nat
}

/// The floor logarithm brackets its argument between two powers of two.
pub proof fn lemma_slog2_bounds(n: nat)
    requires
        1 <= n,
    ensures
        pow2(slog2(n)) <= n < pow2(slog2(n) + 1),
    decreases n,
{
    broadcast use vstd::arithmetic::power2::lemma_pow2_unfold;
    broadcast use vstd::arithmetic::power2::lemma_pow2_pos;

    if n < 2 {
        vstd::arithmetic::power2::lemma2_to64();
    } else {
        lemma_slog2_bounds(n / 2);
        let s = slog2(n / 2);
        assert(pow2(s + 1) == 2 * pow2(s));
        assert(pow2(s + 2) == 2 * pow2(s + 1));
    }
}

/// The floor logarithm never decreases.
pub proof fn lemma_slog2_mono(m: nat, n: nat)
    requires
        1 <= m <= n,
    ensures
        slog2(m) <= slog2(n),
{
    lemma_slog2_bounds(m);
    lemma_slog2_bounds(n);
    if slog2(m) > slog2(n) {
        vstd::arithmetic::power2::lemma_pow2_strictly_increases(slog2(n) + 1, slog2(m) + 1);
        assert(pow2(slog2(m)) < pow2(slog2(m) + 1)) by {
            vstd::arithmetic::power2::lemma_pow2_strictly_increases(slog2(m), slog2(m) + 1);
        }
        vstd::arithmetic::power2::lemma_pow2_strictly_increases(slog2(n) + 1, slog2(m));
    }
}

/// The floor logarithm of sixteen.
pub proof fn lemma_slog2_16()
    ensures
        slog2(16) == 4,
{
    reveal_with_fuel(slog2, 6);
}

/// Every index lies inside the chunk `spec_index_chunk` assigns to it.
pub proof fn lemma_chunk_bounds(index: nat)
    ensures
        spec_index_chunk(index) == slog2(index + FIRST_CHUNK_SIZE as nat) - 4,
        spec_chunk_start(spec_index_chunk(index)) <= index,
        index < spec_chunk_start(spec_index_chunk(index)) + spec_chunk_size(
            spec_index_chunk(index),
        ),
{
    broadcast use vstd::arithmetic::power2::lemma_pow2_pos;

    let x = index + (FIRST_CHUNK_SIZE as nat);
    let l = slog2(x);
    lemma_slog2_bounds(x);
    lemma_slog2_16();
    lemma_slog2_mono(16, x);
    let c = (l - 4) as nat;
    assert(pow2(4) == 16) by {
        vstd::arithmetic::power2::lemma2_to64();
    }
    assert(16 * pow2(c) == pow2(l)) by {
        vstd::arithmetic::power2::lemma_pow2_adds(4, c);
    }
    assert(16 * pow2(c + 1) == pow2(l + 1)) by {
        vstd::arithmetic::power2::lemma_pow2_adds(4, c + 1);
    }
    assert(pow2(c + 1) == 2 * pow2(c)) by {
        vstd::arithmetic::power2::lemma_pow2_unfold(c + 1);
    }
}

/// One chunk ends exactly where the next begins.
pub proof fn lemma_chunk_start_step(chunk_id: nat)
    ensures
        spec_chunk_start(chunk_id + 1) == spec_chunk_start(chunk_id) + spec_chunk_size(chunk_id),
{
    broadcast use vstd::arithmetic::power2::lemma_pow2_pos;

    assert(pow2(chunk_id + 1) == 2 * pow2(chunk_id)) by {
        vstd::arithmetic::power2::lemma_pow2_unfold(chunk_id + 1);
    }
}

/// Appending one element keeps the chunk index, or moves to the start of
/// the next chunk exactly at a chunk boundary.
pub proof fn lemma_index_chunk_step(len: nat)
    requires
        1 <= len,
    ensures
        spec_index_chunk(len) == spec_index_chunk((len - 1) as nat) || (spec_index_chunk(len)
            == spec_index_chunk((len - 1) as nat) + 1 && len == spec_chunk_start(
            spec_index_chunk(len),
        )),
{
    broadcast use vstd::arithmetic::power2::lemma_pow2_pos;

    let prev = (len - 1) as nat;
    lemma_chunk_bounds(prev);
    lemma_chunk_bounds(len);
    lemma_slog2_16();
    lemma_slog2_mono(16, prev + 16);
    lemma_slog2_mono(prev + 16, len + 16);
    let cp = spec_index_chunk(prev);
    let cn = spec_index_chunk(len);
    lemma_chunk_start_step(cp);
    if cn > cp + 1 {
        // then the start of chunk cp + 2 would be at or below len, yet the
        // previous index already lay below the end of chunk cp
        vstd::arithmetic::power2::lemma_pow2_strictly_increases(cp + 1, cn);
        assert(spec_chunk_start(cn) <= len);
        assert(prev < spec_chunk_start(cp) + spec_chunk_size(cp));
    }
    if cn == cp + 1 {
        assert(prev < spec_chunk_start(cp) + spec_chunk_size(cp));
        assert(spec_chunk_start(cn) <= len);
    }
}

/// The chunk assigned to a representable index has a representable size.
pub proof fn lemma_index_chunk_fits(index: nat)
    requires
        index + FIRST_CHUNK_SIZE <= usize::MAX,
    ensures
        spec_chunk_size(spec_index_chunk(index)) <= usize::MAX,
{
    lemma_chunk_bounds(index);
}

/// Floor of the base-two logarithm, by repeated halving.
pub fn floor_log2(x: usize) -> (r: usize)
    requires
        1 <= x,
    ensures
        r as nat == slog2(x as nat),
{
    proof {
        lemma_slog2_bounds(x as nat);
        vstd::arithmetic::power2::lemma2_to64();
        if slog2(x as nat) >= 64 {
            if slog2(x as nat) > 64 {
                vstd::arithmetic::power2::lemma_pow2_strictly_increases(64, slog2(x as nat));
            }
            assert(pow2(64) <= x as nat);
            assert(false);
        }
    }
    let mut m: usize = x;
    let mut r: usize = 0;
    while m >= 2
        invariant
            1 <= m <= x,
            r + slog2(m as nat) == slog2(x as nat),
            slog2(x as nat) < 64,
        decreases m,
    {
        m = m / 2;
        r = r + 1;
    }
    r
}

/// Number of elements in chunk `chunk_id`: sixteen in the first chunk,
/// doubling with each later one.
pub fn chunk_size(chunk_id: usize) -> (r: usize)
    requires
        spec_chunk_size(chunk_id as nat) <= usize::MAX,
    ensures
        r as nat == spec_chunk_size(chunk_id as nat),
{
    proof {
        vstd::arithmetic::power2::lemma2_to64();
    }
    let mut s: usize = FIRST_CHUNK_SIZE;
    let mut i: usize = 0;
    while i < chunk_id
        invariant
            i <= chunk_id,
            spec_chunk_size(chunk_id as nat) <= usize::MAX,
            s as nat == spec_chunk_size(i as nat),
        decreases chunk_id - i,
    {
        proof {
            assert(pow2(i as nat + 1) == 2 * pow2(i as nat)) by {
                vstd::arithmetic::power2::lemma_pow2_unfold(i as nat + 1);
            }
            assert(pow2(i as nat + 1) <= pow2(chunk_id as nat)) by {
                if i as nat + 1 < chunk_id as nat {
                    vstd::arithmetic::power2::lemma_pow2_strictly_increases(
                        i as nat + 1,
                        chunk_id as nat,
                    );
                }
            }
        }
        s = s * 2;
        i = i + 1;
    }
    s
}

/// Index of the first element stored in chunk `chunk_id`: the sizes of all
/// chunks before it sum to one chunk size less than the first chunk's.
pub fn chunk_start(chunk_id: usize) -> (r: usize)
    requires
        spec_chunk_size(chunk_id as nat) <= usize::MAX,
    ensures
        r as nat == spec_chunk_start(chunk_id as nat),
{
    proof {
        broadcast use vstd::arithmetic::power2::lemma_pow2_pos;

    }
    chunk_size(chunk_id) - FIRST_CHUNK_SIZE
}

/// The chunk holding element `index`.
pub fn index_chunk(index: usize) -> (r: usize)
    requires
        index <= usize::MAX - FIRST_CHUNK_SIZE,
    ensures
        r as nat == spec_index_chunk(index as nat),
{
    proof {
        lemma_slog2_16();
        lemma_slog2_mono(16, index as nat + 16);
    }
    floor_log2(index + FIRST_CHUNK_SIZE) - 4
}

/// An append-only list in doubling chunks. Pushing never moves an element
/// already stored.
#[derive(Debug, PartialEq)]
pub struct List<T> {
    chunks: Vec<Vec<T>>,
    len: usize,
}

impl<T> View for List<T> {
    type V = Seq<T>;

    closed spec fn view(&self) -> Seq<T> {
        Seq::new(
            self.len as nat,
            |i: int|
                self.chunks@[spec_index_chunk(i as nat) as int]@[i - spec_chunk_start(
                    spec_index_chunk(i as nat),
                )],
        )
    }
}

impl<T> List<T> {
    /// The chunk structure is exactly what the chunk arithmetic dictates:
    /// one chunk per started chunk index, every chunk but the last filled to
    /// its size, and the last filled up to the length.
    pub closed spec fn wf(&self) -> bool {
        &&& self.len <= usize::MAX - 15
        &&& self.chunks@.len() == if self.len == 0 {
            0int
        } else {
            spec_index_chunk((self.len - 1) as nat) as int + 1
        }
        &&& forall|c: int|
            0 <= c < self.chunks@.len() ==> (#[trigger] self.chunks@[c])@.len() == if c + 1
                < self.chunks@.len() {
                spec_chunk_size(c as nat) as int
            } else {
                self.len - spec_chunk_start(c as nat)
            }
    }

    /// Where element `index` lives: inside the bounds of its chunk, at the
    /// offset the chunk arithmetic gives.
    proof fn lemma_access(&self, index: int)
        requires
            self.wf(),
            0 <= index < self.len,
        ensures
            ({
                let c = spec_index_chunk(index as nat);
                &&& c < self.chunks@.len()
                &&& spec_chunk_start(c) <= index
                &&& index - spec_chunk_start(c) < self.chunks@[c as int]@.len()
                &&& self@[index] == self.chunks@[c as int]@[index - spec_chunk_start(c)]
            }),
    {
        let c = spec_index_chunk(index as nat);
        lemma_chunk_bounds(index as nat);
        lemma_chunk_bounds((self.len - 1) as nat);
        lemma_slog2_mono(index as nat + 16, (self.len - 1) as nat + 16);
        if c as int + 1 < self.chunks@.len() {
        } else {
            assert(c == spec_index_chunk((self.len - 1) as nat));
        }
    }

    /// Creates an empty list.
    pub fn new() -> (r: List<T>)
        ensures
            r.wf(),
            r@ == Seq::<T>::empty(),
    {
        let r = List { chunks: Vec::new(), len: 0 };
        proof {
            assert(r@ =~= Seq::<T>::empty());
        }
        r
    }

    /// Appends an item at the end.
    pub fn push(&mut self, item: T)
        requires
            old(self).wf(),
            old(self)@.len() + FIRST_CHUNK_SIZE <= usize::MAX,
        ensures
            final(self).wf(),
            final(self)@ == old(self)@.push(item),
    {
        let new_index = self.len;
        let chunk_id = index_chunk(new_index);
        proof {
            lemma_chunk_bounds(new_index as nat);
            lemma_index_chunk_fits(new_index as nat);
            lemma_slog2_16();
            if new_index > 0 {
                lemma_index_chunk_step(new_index as nat);
                lemma_chunk_bounds((new_index - 1) as nat);
            }
        }
        if chunk_id < self.chunks.len() {
            proof {
                assert(new_index > 0);
                assert(chunk_id as nat == spec_index_chunk((new_index - 1) as nat));
                assert(chunk_id + 1 == self.chunks@.len());
                assert(self.chunks@[chunk_id as int]@.len() == new_index - spec_chunk_start(
                    chunk_id as nat,
                ));
            }
            let ghost old_chunks = self.chunks@;
            let chunk = &mut self.chunks[chunk_id];
            chunk.push(item);
            self.len = self.len + 1;
            proof {
                assert(self.chunks@[chunk_id as int]@ == old_chunks[chunk_id as int]@.push(item));
                assert(forall|c: int|
                    0 <= c < old_chunks.len() && c != chunk_id ==> self.chunks@[c]
                        == old_chunks[c]);
                assert(final(self).wf()) by {
                    assert(self.chunks@.len() == old_chunks.len());
                }
                assert(self@ =~= old(self)@.push(item)) by {
                    assert forall|i: int| 0 <= i < self.len implies self@[i] == old(self)@.push(
                        item,
                    )[i] by {
                        lemma_chunk_bounds(i as nat);
                        if i < new_index {
                            old(self).lemma_access(i);
                            lemma_slog2_mono(i as nat + 16, (new_index - 1) as nat + 16);
                            assert(spec_index_chunk(i as nat) <= chunk_id as nat);
                        } else {
                            assert(i == new_index);
                            assert(spec_index_chunk(i as nat) == chunk_id as nat);
                        }
                    }
                }
            }
        } else {
            let mut new_chunk: Vec<T> = Vec::with_capacity(chunk_size(chunk_id));
            new_chunk.push(item);
            let ghost old_chunks = self.chunks@;
            proof {
                if new_index > 0 {
                    assert(chunk_id as nat == spec_index_chunk((new_index - 1) as nat) + 1);
                    lemma_chunk_start_step((chunk_id - 1) as nat);
                    assert(new_index as nat == spec_chunk_start(chunk_id as nat));
                } else {
                    reveal_with_fuel(slog2, 6);
                    vstd::arithmetic::power2::lemma2_to64();
                    assert(chunk_id == 0);
                    assert(spec_chunk_start(0) == 0);
                }
                assert(chunk_id as int == old_chunks.len());
            }
            self.chunks.push(new_chunk);
            self.len = self.len + 1;
            proof {
                assert(self.chunks@ == old_chunks.push(new_chunk));
                assert(self.chunks@[chunk_id as int]@ == seq![item]) by {
                    assert(new_chunk@ == Seq::<T>::empty().push(item));
                    assert(Seq::<T>::empty().push(item) =~= seq![item]);
                }
                assert(final(self).wf()) by {
                    assert forall|c: int| 0 <= c < self.chunks@.len() implies (
                    #[trigger] self.chunks@[c])@.len() == if c + 1 < self.chunks@.len() {
                        spec_chunk_size(c as nat) as int
                    } else {
                        self.len - spec_chunk_start(c as nat)
                    } by {
                        if c < chunk_id {
                            assert(self.chunks@[c] == old_chunks[c]);
                        }
                    }
                }
                assert(self@ =~= old(self)@.push(item)) by {
                    assert forall|i: int| 0 <= i < self.len implies self@[i] == old(self)@.push(
                        item,
                    )[i] by {
                        lemma_chunk_bounds(i as nat);
                        if i < new_index {
                            old(self).lemma_access(i);
                            lemma_slog2_mono(i as nat + 16, (new_index - 1) as nat + 16);
                            assert(spec_index_chunk(i as nat) < chunk_id as nat);
                            assert(self.chunks@[spec_index_chunk(i as nat) as int]
                                == old_chunks[spec_index_chunk(i as nat) as int]);
                        } else {
                            assert(i == new_index);
                            assert(spec_index_chunk(i as nat) == chunk_id as nat);
                            assert(i - spec_chunk_start(chunk_id as nat) == 0);
                        }
                    }
                }
            }
        }
    }

    /// The number of elements in the list.
    pub fn len(&self) -> (r: usize)
        ensures
            r == self@.len(),
    {
        self.len
    }

    /// The element at `index`, or `None` past the end.
    pub fn get(&self, index: usize) -> (r: Option<&T>)
        requires
            self.wf(),
        ensures
            match r {
                Some(v) => index < self@.len() && *v == self@[index as int],
                None => index >= self@.len(),
            },
    {
        if index >= self.len {
            return None;
        }
        proof {
            self.lemma_access(index as int);
            lemma_index_chunk_fits(index as nat);
        }
        let chunk_id = index_chunk(index);
        let start = chunk_start(chunk_id);
        Some(&self.chunks[chunk_id][index - start])
    }

    /// An iterator positioned at the start of the list.
    pub fn iter(&self) -> (r: Iter)
        ensures
            r.spec_index() == 0,
    {
        Iter { index: 0 }
    }
}

impl<T> Default for List<T> {
    /// An empty list.
    fn default() -> (r: Self)
        ensures
            r.wf(),
            r@ == Seq::<T>::empty(),
    {
        List::new()
    }
}

/// A position walking a [`List`] front to back. It holds only the index, so
/// the list is handed to each call; the list may grow between calls and the
/// iterator picks up the new elements.
pub struct Iter {
    index: usize,
}

impl Iter {
    /// The position of the next element to yield.
    pub closed spec fn spec_index(&self) -> int {
        self.index as int
    }

    /// The next element of `list`, advancing the position; `None` at the
    /// end, leaving the position unchanged.
    pub fn next<'l, T>(&mut self, list: &'l List<T>) -> (r: Option<&'l T>)
        requires
            list.wf(),
        ensures
            old(self).spec_index() < list@.len() ==> (r matches Some(v) && *v == list@[old(
                self,
            ).spec_index()] && final(self).spec_index() == old(self).spec_index() + 1),
            old(self).spec_index() >= list@.len() ==> (r is None && *final(self) == *old(self)),
    {
        let item = list.get(self.index);
        if item.is_some() {
            self.index = self.index + 1;
        }
        item
    }

    /// How many elements remain: the exact count, as both bounds.
    pub fn size_hint<T>(&self, list: &List<T>) -> (r: (usize, Option<usize>))
        ensures
            self.spec_index() <= list@.len() ==> r.0 == list@.len() - self.spec_index(),
            r.1 == Some(r.0),
    {
        let len = list.len();
        let remaining = if self.index <= len {
            len - self.index
        } else {
            0
        };
        (remaining, Some(remaining))
    }
}

} // verus!
