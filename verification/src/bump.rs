//! Downward bump allocation over one block.
//!
//! A [`BumpBlock`] owns one [`Block`] and its [`BlockMeta`] and hands out
//! word-aligned addresses, moving a cursor strictly downward through the
//! current gap. When the gap is exhausted, the line map below the gap is
//! searched for the next run of free lines; when none is left, the block is
//! exhausted and the caller replaces it.
//!
//! Every operation is specified against [`bump_alloc_spec`], an exact
//! functional model of the allocation step over the mathematical state
//! [`BumpState`].

use vstd::prelude::*;
use crate::region::{AllocError, Block, is_power_of_two_spec, BLOCK_CAPACITY, BLOCK_SIZE,
    LINE_COUNT, LINE_SIZE, WORD_ALIGN};
use crate::line_map::{find_gap_spec, lemma_find_gap_all_free, lemma_find_gap_properties,
    BlockMeta};

verus! {

/// Mathematical state of a bump cursor: block base address, cursor and limit
/// (absolute addresses), and the block's line marks.
pub struct BumpState {
    pub base: int,
    pub cursor: int,
    pub limit: int,
    pub lines: Seq<u8>,
}

/// The base address of a block is positive, self-aligned, and heads a span
/// that does not wrap the address space.
pub open spec fn base_wf(base: int) -> bool {
    &&& 1 <= base
    &&& base % (BLOCK_SIZE as int) == 0
    &&& base + BLOCK_SIZE <= usize::MAX
}

/// Well-formed cursor state: the gap `[limit, cursor)` lies inside the
/// block, and the line map has one mark per line.
pub open spec fn bump_wf(s: BumpState) -> bool {
    &&& base_wf(s.base)
    &&& s.base <= s.limit <= s.cursor <= s.base + BLOCK_SIZE
    &&& s.lines.len() == LINE_COUNT
}

/// The line map of a block with no live data.
pub open spec fn zero_lines() -> Seq<u8> {
    Seq::new(LINE_COUNT as nat, |i: int| 0u8)
}

/// State of a cursor freshly constructed over an empty block: an empty gap
/// at the block's top, so the first allocation discovers the whole block
/// through the gap search.
pub open spec fn fresh_bump_state(base: int) -> BumpState {
    BumpState {
        base,
        cursor: base + BLOCK_SIZE,
        limit: base + BLOCK_SIZE,
        lines: zero_lines(),
    }
}

/// `x` rounded down to the word alignment.
pub open spec fn align_down(x: int) -> int {
    x - x % (WORD_ALIGN as int)
}

/// `x` rounded up to the word alignment.
pub open spec fn word_align_up(x: int) -> int {
    align_down(x + WORD_ALIGN - 1)
}

/// One bump attempt against the current gap: the aligned candidate below the
/// cursor, provided it does not fall below the limit.
pub open spec fn bump_attempt(s: BumpState, size: int) -> Option<int> {
    if size <= s.cursor && align_down(s.cursor - size) >= s.limit {
        Some(align_down(s.cursor - size))
    } else {
        None
    }
}

/// The allocation step: bump into the current gap; on exhaustion, search the
/// line map below the limit for the next gap, reposition cursor and limit to
/// it, and bump there. Returns the next state and the allocated address, or
/// the unchanged state and `None` when the block is exhausted.
pub open spec fn bump_alloc_spec(s: BumpState, size: int) -> (BumpState, Option<int>) {
    match bump_attempt(s, size) {
        Some(a) => (BumpState { cursor: a, ..s }, Some(a)),
        None => {
            let start = s.limit - s.base;
            if start > 0 {
                match find_gap_spec(s.lines, start, size) {
                    Some((t, b)) => {
                        let s2 = BumpState { cursor: s.base + t, limit: s.base + b, ..s };
                        match bump_attempt(s2, size) {
                            Some(a) => (BumpState { cursor: a, ..s2 }, Some(a)),
                            None => (s, None),
                        }
                    },
                    None => (s, None),
                }
            } else {
                (s, None)
            }
        },
    }
}

/// A multiple of a product of positive factors is a multiple of each factor.
pub proof fn lemma_mod_factor(x: int, a: int, b: int)
    requires
        0 < a,
        0 < b,
        0 <= x,
        x % (a * b) == 0,
    ensures
        x % b == 0,
{
    let q = x / (a * b);
    assert(0 < a * b) by (nonlinear_arith)
        requires
            0 < a,
            0 < b,
    ;
    vstd::arithmetic::div_mod::lemma_fundamental_div_mod(x, a * b);
    assert(x == b * (a * q)) by (nonlinear_arith)
        requires
            x == (a * b) * q,
    ;
    vstd::arithmetic::div_mod::lemma_mod_multiples_basic(a * q, b);
    assert((a * q) * b == b * (a * q)) by (nonlinear_arith);
}

/// Rounding down to the word alignment yields a word-aligned value no
/// greater than the input, and less than one word below it.
pub proof fn lemma_align_down(x: int)
    ensures
        align_down(x) <= x,
        x < align_down(x) + WORD_ALIGN,
        align_down(x) % (WORD_ALIGN as int) == 0,
{
    let w = WORD_ALIGN as int;
    vstd::arithmetic::div_mod::lemma_fundamental_div_mod(x, w);
    vstd::arithmetic::div_mod::lemma_mod_multiples_basic(x / w, w);
    assert((x / w) * w == w * (x / w)) by (nonlinear_arith);
}

/// `align_down` is exactly the greatest word-aligned value at or below its
/// input.
pub proof fn lemma_align_down_unique(x: int, m: int)
    requires
        m % (WORD_ALIGN as int) == 0,
        m <= x < m + WORD_ALIGN,
    ensures
        align_down(x) == m,
{
    let w = WORD_ALIGN as int;
    lemma_align_down(x);
    let a = align_down(x);
    vstd::arithmetic::div_mod::lemma_sub_mod_noop(m, a, w);
    vstd::arithmetic::div_mod::lemma_sub_mod_noop(a, m, w);
    if a < m {
        vstd::arithmetic::div_mod::lemma_small_mod((m - a) as nat, w as nat);
    }
    if a > m {
        vstd::arithmetic::div_mod::lemma_small_mod((a - m) as nat, w as nat);
    }
}

/// Rounding down does not cross a word-aligned bound that the input is at or
/// above.
pub proof fn lemma_align_down_ge(x: int, b: int)
    requires
        b % (WORD_ALIGN as int) == 0,
        b <= x,
    ensures
        b <= align_down(x),
{
    let w = WORD_ALIGN as int;
    lemma_align_down(x);
    let a = align_down(x);
    if a < b {
        vstd::arithmetic::div_mod::lemma_sub_mod_noop(b, a, w);
        vstd::arithmetic::div_mod::lemma_small_mod((b - a) as nat, w as nat);
    }
}

/// A self-aligned block base is word-aligned.
pub proof fn lemma_base_word_aligned(base: int)
    requires
        0 <= base,
        base % (BLOCK_SIZE as int) == 0,
    ensures
        base % (WORD_ALIGN as int) == 0,
{
    lemma_mod_factor(base, BLOCK_SIZE as int / WORD_ALIGN as int, WORD_ALIGN as int);
}

/// Rounding a size up to the word alignment keeps it between the size and
/// one word above it.
pub proof fn lemma_word_align_up(size: int)
    requires
        0 <= size,
    ensures
        size <= word_align_up(size),
        word_align_up(size) < size + WORD_ALIGN,
        word_align_up(size) % (WORD_ALIGN as int) == 0,
{
    lemma_align_down(size + WORD_ALIGN - 1);
}

/// Bumping from a word-aligned cursor consumes exactly the word-aligned
/// size.
pub proof fn lemma_aligned_bump(cursor: int, size: int)
    requires
        cursor % (WORD_ALIGN as int) == 0,
        0 <= size,
    ensures
        align_down(cursor - size) == cursor - word_align_up(size),
{
    let w = WORD_ALIGN as int;
    lemma_word_align_up(size);
    let m = cursor - word_align_up(size);
    assert(m % w == 0) by {
        vstd::arithmetic::div_mod::lemma_sub_mod_noop(cursor, word_align_up(size), w);
    }
    lemma_align_down_unique(cursor - size, m);
}

/// What one allocation step guarantees: the state stays well formed, base
/// and line marks never change, a failed step changes nothing, and a
/// successful step returns a word-aligned address inside the block, below
/// the old cursor by at least `size` bytes, with the new cursor on it.
pub proof fn lemma_bump_alloc_props(s: BumpState, size: int)
    requires
        bump_wf(s),
        0 <= size,
    ensures
        ({
            let (s2, r) = bump_alloc_spec(s, size);
            &&& bump_wf(s2)
            &&& s2.base == s.base
            &&& s2.lines == s.lines
            &&& s2.limit <= s.limit
            &&& (r is None ==> s2 == s)
            &&& (r matches Some(a) ==> {
                &&& s2.cursor == a
                &&& a % (WORD_ALIGN as int) == 0
                &&& s.base <= s2.limit <= a
                &&& a + size <= s.cursor
            })
        }),
{
    match bump_attempt(s, size) {
        Some(a) => {
            lemma_align_down(s.cursor - size);
        },
        None => {
            let start = s.limit - s.base;
            if start > 0 && find_gap_spec(s.lines, start, size) is Some {
                let (t, b) = find_gap_spec(s.lines, start, size)->Some_0;
                lemma_find_gap_properties(s.lines, start, size);
                lemma_gap_bump_succeeds(s, size);
                let s2 = BumpState { cursor: s.base + t, limit: s.base + b, ..s };
                lemma_align_down(s2.cursor - size);
            }
        },
    }
}

/// The reposition taken inside one allocation step never fails: once the gap
/// search returns a gap, the bump into it succeeds.
pub proof fn lemma_gap_bump_succeeds(s: BumpState, size: int)
    requires
        bump_wf(s),
        0 <= size,
        s.limit - s.base > 0,
        find_gap_spec(s.lines, s.limit - s.base, size) is Some,
    ensures
        ({
            let (t, b) = find_gap_spec(s.lines, s.limit - s.base, size)->Some_0;
            let s2 = BumpState { cursor: s.base + t, limit: s.base + b, ..s };
            bump_attempt(s2, size) is Some
        }),
{
    let w = WORD_ALIGN as int;
    let start = s.limit - s.base;
    let (t, b) = find_gap_spec(s.lines, start, size)->Some_0;
    lemma_find_gap_properties(s.lines, start, size);
    let s2 = BumpState { cursor: s.base + t, limit: s.base + b, ..s };
    lemma_base_word_aligned(s.base);
    assert((s.base + b) % w == 0) by {
        lemma_mod_factor(b, LINE_SIZE as int / WORD_ALIGN as int, w);
        vstd::arithmetic::div_mod::lemma_add_mod_noop(s.base, b, w);
    }
    lemma_align_down_ge(s2.cursor - size, s.base + b);
}

/// The first allocation from a fresh cursor discovers the whole block and
/// lands exactly one word-aligned size below the block's top.
pub proof fn lemma_fresh_alloc_address(base: int, size: int)
    requires
        base_wf(base),
        1 <= size <= BLOCK_SIZE,
    ensures
        bump_alloc_spec(fresh_bump_state(base), size) == (
            (BumpState {
                base,
                cursor: base + BLOCK_SIZE - word_align_up(size),
                limit: base,
                lines: zero_lines(),
            }),
            Some(base + BLOCK_SIZE - word_align_up(size)),
        ),
{
    let s = fresh_bump_state(base);
    let top = base + BLOCK_SIZE;
    lemma_align_down(top - size);
    assert(bump_attempt(s, size) is None);
    vstd::arithmetic::div_mod::lemma_div_is_ordered(
        size + LINE_SIZE - 1,
        BLOCK_SIZE + LINE_SIZE - 1,
        LINE_SIZE as int,
    );
    lemma_find_gap_all_free(zero_lines(), BLOCK_SIZE as int, size);
    let s2 = BumpState { cursor: top, limit: base, ..s };
    lemma_base_word_aligned(base);
    lemma_aligned_bump(top, size);
    lemma_word_align_up(size);
    lemma_align_down_ge(top - size, base);
}

/// A fresh cursor serves any request within the block's capacity.
pub proof fn lemma_fresh_serves(base: int, size: int)
    requires
        base_wf(base),
        0 <= size <= BLOCK_CAPACITY,
    ensures
        bump_alloc_spec(fresh_bump_state(base), size).1 is Some,
{
    if size == 0 {
        let s = fresh_bump_state(base);
        lemma_base_word_aligned(base);
        lemma_aligned_bump(s.cursor, 0);
        lemma_word_align_up(0);
    } else {
        lemma_fresh_alloc_address(base, size);
    }
}

/// Length-aligned total of a request sequence: the bytes a sequence of
/// allocations consumes from a gap, each request rounded up to the word
/// alignment.
pub open spec fn sum_word_aligned(sizes: Seq<int>) -> int
    decreases sizes.len(),
{
    if sizes.len() == 0 {
        0
    } else {
        word_align_up(sizes[0]) + sum_word_aligned(sizes.drop_first())
    }
}

/// Folds the allocation step over a sequence of requests, collecting every
/// returned address.
pub open spec fn bump_run(s: BumpState, sizes: Seq<int>) -> (BumpState, Seq<Option<int>>)
    decreases sizes.len(),
{
    if sizes.len() == 0 {
        (s, Seq::empty())
    } else {
        let (s1, r) = bump_alloc_spec(s, sizes[0]);
        let (sf, rest) = bump_run(s1, sizes.drop_first());
        (sf, seq![r] + rest)
    }
}

/// The aligned total of positive requests is at least the aligned first
/// request, and never negative.
pub proof fn lemma_sum_word_aligned_nonneg(sizes: Seq<int>)
    requires
        forall|i: int| 0 <= i < sizes.len() ==> 1 <= sizes[i],
    ensures
        0 <= sum_word_aligned(sizes),
    decreases sizes.len(),
{
    if sizes.len() > 0 {
        lemma_word_align_up(sizes[0]);
        assert(forall|i: int|
            0 <= i < sizes.drop_first().len() ==> 1 <= sizes.drop_first()[i]);
        lemma_sum_word_aligned_nonneg(sizes.drop_first());
    }
}

/// Requests served from a single maximal gap: with the limit at the block's
/// base and a word-aligned cursor, a sequence of positive requests whose
/// aligned total fits the remaining gap is served in full, each address one
/// aligned size below the previous cursor.
pub proof fn lemma_bump_run_within_gap(s: BumpState, sizes: Seq<int>)
    requires
        bump_wf(s),
        s.limit == s.base,
        s.cursor % (WORD_ALIGN as int) == 0,
        forall|i: int| 0 <= i < sizes.len() ==> 1 <= sizes[i],
        sum_word_aligned(sizes) <= s.cursor - s.base,
    ensures
        ({
            let (sf, rs) = bump_run(s, sizes);
            &&& rs.len() == sizes.len()
            &&& forall|i: int| 0 <= i < rs.len() ==> rs[i] is Some
            &&& (rs.len() > 0 ==> rs[0] == Some(s.cursor - word_align_up(sizes[0])))
            &&& forall|i: int| 1 <= i < rs.len() ==> (#[trigger] rs[i])->Some_0 < rs[i - 1]->Some_0
            &&& sf.limit == s.base
            &&& sf.cursor == s.cursor - sum_word_aligned(sizes)
            &&& sf.cursor % (WORD_ALIGN as int) == 0
            &&& bump_wf(sf)
        }),
    decreases sizes.len(),
{
    if sizes.len() > 0 {
        let size = sizes[0];
        let rest = sizes.drop_first();
        lemma_word_align_up(size);
        lemma_sum_word_aligned_nonneg(rest);
        lemma_base_word_aligned(s.base);
        lemma_aligned_bump(s.cursor, size);
        lemma_align_down_ge(s.cursor - size, s.base);
        let (s1, r0) = bump_alloc_spec(s, size);
        assert(r0 == Some(s.cursor - word_align_up(size)));
        assert(forall|i: int| 0 <= i < rest.len() ==> 1 <= rest[i]);
        lemma_bump_run_within_gap(s1, rest);
        let (sf, rrest) = bump_run(s1, rest);
        if rest.len() > 0 {
            lemma_word_align_up(rest[0]);
        }
    }
}

/// A fresh cursor over an empty block serves every sequence of positive
/// requests whose word-aligned sizes total at most the block size, and the
/// returned addresses strictly decrease.
pub proof fn lemma_fresh_cursor_never_exhausts(base: int, sizes: Seq<int>)
    requires
        base_wf(base),
        forall|i: int| 0 <= i < sizes.len() ==> 1 <= sizes[i],
        sum_word_aligned(sizes) <= BLOCK_SIZE,
    ensures
        ({
            let (sf, rs) = bump_run(fresh_bump_state(base), sizes);
            &&& rs.len() == sizes.len()
            &&& forall|i: int| 0 <= i < rs.len() ==> rs[i] is Some
            &&& forall|i: int| 1 <= i < rs.len() ==> (#[trigger] rs[i])->Some_0 < rs[i - 1]->Some_0
        }),
{
    let w = WORD_ALIGN as int;
    let s = fresh_bump_state(base);
    if sizes.len() > 0 {
        let size = sizes[0];
        let rest = sizes.drop_first();
        lemma_word_align_up(size);
        lemma_sum_word_aligned_nonneg(rest);
        lemma_fresh_alloc_address(base, size);
        let (s1, r0) = bump_alloc_spec(s, size);
        assert(s1.cursor % w == 0) by {
            lemma_base_word_aligned(base);
            vstd::arithmetic::div_mod::lemma_add_mod_noop(base, BLOCK_SIZE as int, w);
            vstd::arithmetic::div_mod::lemma_sub_mod_noop(
                base + BLOCK_SIZE,
                word_align_up(size),
                w,
            );
        }
        assert(forall|i: int| 0 <= i < rest.len() ==> 1 <= rest[i]);
        lemma_bump_run_within_gap(s1, rest);
        if rest.len() > 0 {
            lemma_word_align_up(rest[0]);
        }
    }
}

/// Rounds `x` down to the word alignment.
fn align_down_exec(x: usize) -> (r: usize)
    ensures
        r as int == align_down(x as int),
{
    x - x % WORD_ALIGN
}

/// One block under a downward-moving bump cursor.
///
/// `cursor` is the next write position, `limit` the bottom of the currently
/// usable gap; both are absolute addresses inside the owned block.
pub struct BumpBlock {
    cursor: usize,
    limit: usize,
    block: Block,
    meta: BlockMeta,
}

impl View for BumpBlock {
    type V = BumpState;

    closed spec fn view(&self) -> BumpState {
        BumpState {
            base: self.block.spec_addr() as int,
            cursor: self.cursor as int,
            limit: self.limit as int,
            lines: self.meta@,
        }
    }
}

impl BumpBlock {
    /// The struct invariant: the cursor state is well formed over a block of
    /// the fixed block size.
    pub closed spec fn wf(&self) -> bool {
        &&& self.block.wf()
        &&& self.block.spec_size() == BLOCK_SIZE
        &&& self.meta.wf()
        &&& bump_wf(self@)
    }

    /// A well-formed cursor has a well-formed mathematical state.
    pub proof fn lemma_wf_state(&self)
        requires
            self.wf(),
        ensures
            bump_wf(self@),
    {
    }

    /// Acquires a fresh block and places an empty gap at its top, so that
    /// the first allocation discovers the whole block through the gap
    /// search.
    pub fn new() -> (r: Result<BumpBlock, AllocError>)
        ensures
            r is Ok,
            r matches Ok(b) ==> b.wf() && b@ == fresh_bump_state(b@.base),
    {
        proof {
            reveal_with_fuel(is_power_of_two_spec, 17);
            assert(is_power_of_two_spec(BLOCK_SIZE as nat));
        }
        let block = match Block::new(BLOCK_SIZE) {
            Ok(b) => b,
            Err(_) => {
                return Err(AllocError::OOM);
            },
        };
        let meta = BlockMeta::new();
        let top = block.as_ptr() + BLOCK_SIZE;
        let r = BumpBlock { cursor: top, limit: top, block, meta };
        proof {
            assert(r@.lines =~= zero_lines());
        }
        Ok(r)
    }

    /// The block's base address.
    pub fn base_address(&self) -> (r: usize)
        requires
            self.wf(),
        ensures
            r as int == self@.base,
    {
        self.block.as_ptr()
    }

    /// The cursor: the next write position.
    pub fn cursor_address(&self) -> (r: usize)
        ensures
            r as int == self@.cursor,
    {
        self.cursor
    }

    /// The limit: the bottom of the current gap.
    pub fn limit_address(&self) -> (r: usize)
        ensures
            r as int == self@.limit,
    {
        self.limit
    }

    /// Marks line `index` of this block as holding live data.
    pub fn mark_line(&mut self, index: usize)
        requires
            old(self).wf(),
            index < LINE_COUNT,
        ensures
            final(self).wf(),
            final(self)@ == (BumpState {
                lines: old(self)@.lines.update(index as int, 1u8),
                ..old(self)@
            }),
    {
        self.meta.mark_line(index);
    }

    /// Allocates `size` bytes from this block, bumping the cursor downward.
    ///
    /// Returns the word-aligned address of the allocated span, searching the
    /// line map for a fresh gap when the current one is exhausted; `None`
    /// signals that the block has no usable gap left, and leaves the cursor
    /// and limit untouched.
    pub fn inner_alloc(&mut self, size: usize) -> (r: Option<usize>)
        requires
            old(self).wf(),
        ensures
            final(self).wf(),
            ({
                let (s2, ra) = bump_alloc_spec(old(self)@, size as int);
                &&& final(self)@ == s2
                &&& match r {
                    Some(a) => ra == Some(a as int),
                    None => ra is None,
                }
            }),
            r is None ==> final(self)@ == old(self)@,
            r matches Some(a) ==> {
                &&& a % WORD_ALIGN == 0
                &&& old(self)@.base <= a
                &&& a + size <= old(self)@.cursor
                &&& final(self)@.cursor == a as int
                &&& final(self)@.base == old(self)@.base
                &&& final(self)@.lines == old(self)@.lines
            },
    {
        proof {
            lemma_bump_alloc_props(self@, size as int);
        }
        if size <= self.cursor {
            let cand = align_down_exec(self.cursor - size);
            if cand >= self.limit {
                self.cursor = cand;
                return Some(cand);
            }
        }
        let base = self.block.as_ptr();
        let start = self.limit - base;
        if start > 0 {
            match self.meta.find_next_gap(start, size) {
                Some((t, b)) => {
                    proof {
                        lemma_gap_bump_succeeds(self@, size as int);
                        lemma_find_gap_properties(self@.lines, start as int, size as int);
                    }
                    let new_cursor = base + t;
                    let new_limit = base + b;
                    let cand = align_down_exec(new_cursor - size);
                    self.cursor = cand;
                    self.limit = new_limit;
                    Some(cand)
                },
                None => None,
            }
        } else {
            None
        }
    }
}

} // verus!
