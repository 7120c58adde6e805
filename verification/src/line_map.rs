//! Per-block line liveness map and gap search.
//!
//! A [`BlockMeta`] holds one mark byte per line of a block: zero means the
//! line is free, nonzero means it holds live data. The gap search walks the
//! map backward from a given offset and looks for a run of free lines long
//! enough for a requested size. When the run is bounded below by a marked
//! line, the gap's bottom is placed one full line above that mark: marking is
//! line-granular, so an object may straddle the boundary of a live line, and
//! new data is never placed flush against one.

use vstd::prelude::*;
use crate::region::{BLOCK_SIZE, LINE_COUNT, LINE_SIZE};

verus! {

/// Number of lines needed to hold `size` bytes (`size / LINE_SIZE`, rounded
/// up).
pub open spec fn lines_required_spec(size: int) -> int {
    (size + LINE_SIZE - 1) / (LINE_SIZE as int)
}

/// One step of the backward scan over the line map.
///
/// `index` is the next line to examine, `count` the length of the free run
/// accumulated so far, `end` the line just above that run. A gap is returned
/// either when the scan reaches line 0 inside a sufficient run (the gap's
/// bottom is offset 0), or when it hits a marked line below a run that holds
/// one line more than required (the spare line is the buffer above the mark).
pub open spec fn gap_scan(lines: Seq<u8>, index: int, count: int, end: int, required: int) -> Option<
    (int, int),
>
    decreases index + 1,
{
    if index < 0 {
        None
    } else if lines[index] == 0 {
        if index == 0 && count + 1 >= required {
            Some((end * (LINE_SIZE as int), 0int))
        } else {
            gap_scan(lines, index - 1, count + 1, end, required)
        }
    } else {
        if count > required {
            Some((end * (LINE_SIZE as int), (index + 2) * (LINE_SIZE as int)))
        } else {
            gap_scan(lines, index - 1, 0, index, required)
        }
    }
}

/// The gap search: scan backward from `start` (a byte offset into the block)
/// for a run of free lines able to hold `size` bytes. Returns the gap as
/// `(top, bottom)` byte offsets, or `None` when no such run exists.
pub open spec fn find_gap_spec(lines: Seq<u8>, start: int, size: int) -> Option<(int, int)> {
    let start_line = start / (LINE_SIZE as int);
    gap_scan(lines, start_line - 1, 0, start_line, lines_required_spec(size))
}

/// Relation the scan maintains: `count` counts exactly the free lines
/// strictly between `index` and `end`.
pub open spec fn scan_inv(lines: Seq<u8>, index: int, count: int, end: int) -> bool {
    &&& -1 <= index < end <= lines.len()
    &&& count == end - index - 1
    &&& forall|j: int| index < j < end ==> lines[j] == 0
}

/// A scan that asks for more lines than it could still count returns `None`.
pub proof fn lemma_gap_scan_none_when_over(
    lines: Seq<u8>,
    index: int,
    count: int,
    end: int,
    required: int,
)
    requires
        0 <= count,
        required > index + 1 + count,
    ensures
        gap_scan(lines, index, count, end, required) is None,
    decreases index + 1,
{
    if index >= 0 {
        if lines[index] == 0 {
            lemma_gap_scan_none_when_over(lines, index - 1, count + 1, end, required);
        } else {
            lemma_gap_scan_none_when_over(lines, index - 1, 0, index, required);
        }
    }
}

/// Every gap the scan returns is line-aligned, holds at least the required
/// number of lines, lies below `end`, and covers only free lines.
pub proof fn lemma_gap_scan_properties(
    lines: Seq<u8>,
    index: int,
    count: int,
    end: int,
    required: int,
)
    requires
        scan_inv(lines, index, count, end),
        required >= 0,
        gap_scan(lines, index, count, end, required) is Some,
    ensures
        ({
            let (t, b) = gap_scan(lines, index, count, end, required)->Some_0;
            &&& 0 <= b <= t <= end * (LINE_SIZE as int)
            &&& b % (LINE_SIZE as int) == 0
            &&& t % (LINE_SIZE as int) == 0
            &&& b + required * (LINE_SIZE as int) <= t
            &&& forall|j: int|
                b / (LINE_SIZE as int) <= j < t / (LINE_SIZE as int) ==> lines[j] == 0
        }),
    decreases index + 1,
{
    broadcast use vstd::arithmetic::mul::lemma_mul_inequality;
    broadcast use vstd::arithmetic::mul::lemma_mul_is_distributive_add_other_way;
    broadcast use vstd::arithmetic::div_mod::lemma_div_by_multiple;
    broadcast use vstd::arithmetic::div_mod::lemma_mod_multiples_basic;

    if lines[index] == 0 {
        if index == 0 && count + 1 >= required {
            let t = end * (LINE_SIZE as int);
            assert(required * (LINE_SIZE as int) <= end * (LINE_SIZE as int));
            assert(forall|j: int| 0 <= j < t / (LINE_SIZE as int) ==> lines[j] == 0);
        } else {
            lemma_gap_scan_properties(lines, index - 1, count + 1, end, required);
        }
    } else {
        if count > required {
            let t = end * (LINE_SIZE as int);
            let b = (index + 2) * (LINE_SIZE as int);
            assert((index + 2) + required <= end);
            assert(((index + 2) + required) * (LINE_SIZE as int) <= end * (LINE_SIZE as int));
            assert(forall|j: int|
                b / (LINE_SIZE as int) <= j < t / (LINE_SIZE as int) ==> lines[j] == 0);
        } else {
            lemma_gap_scan_properties(lines, index - 1, 0, index, required);
            let (t, b) = gap_scan(lines, index - 1, 0, index, required)->Some_0;
            assert(index * (LINE_SIZE as int) <= end * (LINE_SIZE as int));
        }
    }
}

/// With all lines up to `index` free, the scan finds the run from `end` down
/// to line 0 whenever the run suffices, and nothing otherwise.
pub proof fn lemma_gap_scan_all_free(
    lines: Seq<u8>,
    index: int,
    count: int,
    end: int,
    required: int,
)
    requires
        scan_inv(lines, index, count, end),
        required >= 1,
        forall|j: int| 0 <= j <= index ==> lines[j] == 0,
        index == -1 ==> required > end,
    ensures
        gap_scan(lines, index, count, end, required) == if required <= end {
            Some((end * (LINE_SIZE as int), 0int))
        } else {
            None::<(int, int)>
        },
    decreases index + 1,
{
    if index >= 0 {
        if index == 0 {
            if count + 1 < required {
                lemma_gap_scan_all_free(lines, -1, count + 1, end, required);
            }
        } else {
            lemma_gap_scan_all_free(lines, index - 1, count + 1, end, required);
        }
    }
}

/// With every line from `index` down to line 0 marked, a scan arriving with
/// an empty run finds nothing.
pub proof fn lemma_gap_scan_all_marked(lines: Seq<u8>, index: int, end: int, required: int)
    requires
        required >= 1,
        forall|j: int| 0 <= j <= index ==> lines[j] != 0,
    ensures
        gap_scan(lines, index, 0, end, required) is None,
    decreases index + 1,
{
    if index >= 0 {
        lemma_gap_scan_all_marked(lines, index - 1, index, required);
    }
}

/// A scan over a free run bounded below by the marked line `m` returns the
/// gap whose bottom sits one full line above `m`, whenever the run holds one
/// line more than required.
pub proof fn lemma_gap_scan_hits_mark(
    lines: Seq<u8>,
    index: int,
    count: int,
    end: int,
    required: int,
    m: int,
)
    requires
        0 <= m <= index,
        lines[m] != 0,
        forall|j: int| m < j <= index ==> lines[j] == 0,
        count + (index - m) > required,
    ensures
        gap_scan(lines, index, count, end, required) == Some(
            (end * (LINE_SIZE as int), (m + 2) * (LINE_SIZE as int)),
        ),
    decreases index - m,
{
    if index > m {
        lemma_gap_scan_hits_mark(lines, index - 1, count + 1, end, required, m);
    }
}

/// `lines_required_spec` is a true ceiling: the lines it asks for hold the
/// size, and one line fewer would not.
pub proof fn lemma_lines_required(size: int)
    requires
        0 <= size,
    ensures
        0 <= lines_required_spec(size),
        size <= lines_required_spec(size) * (LINE_SIZE as int),
        lines_required_spec(size) * (LINE_SIZE as int) < size + (LINE_SIZE as int),
{
    let l = LINE_SIZE as int;
    let x = size + l - 1;
    vstd::arithmetic::div_mod::lemma_fundamental_div_mod(x, l);
    vstd::arithmetic::div_mod::lemma_mod_division_less_than_divisor(x, l);
    vstd::arithmetic::div_mod::lemma_div_pos_is_pos(x, l);
}

/// Every gap `find_gap_spec` returns is line-aligned, lies at or below the
/// search start, holds the required lines for `size`, and covers only free
/// lines.
pub proof fn lemma_find_gap_properties(lines: Seq<u8>, start: int, size: int)
    requires
        lines.len() == LINE_COUNT,
        0 <= start <= BLOCK_SIZE,
        0 <= size,
        find_gap_spec(lines, start, size) is Some,
    ensures
        ({
            let (t, b) = find_gap_spec(lines, start, size)->Some_0;
            &&& 0 <= b <= t <= start
            &&& b % (LINE_SIZE as int) == 0
            &&& t % (LINE_SIZE as int) == 0
            &&& b + size <= t
            &&& b + lines_required_spec(size) * (LINE_SIZE as int) <= t
            &&& forall|j: int|
                b / (LINE_SIZE as int) <= j < t / (LINE_SIZE as int) ==> lines[j] == 0
        }),
{
    let l = LINE_SIZE as int;
    let sl = start / l;
    let required = lines_required_spec(size);
    lemma_lines_required(size);
    vstd::arithmetic::div_mod::lemma_div_pos_is_pos(start, l);
    lemma_gap_scan_properties(lines, sl - 1, 0, sl, required);
    vstd::arithmetic::div_mod::lemma_fundamental_div_mod(start, l);
    vstd::arithmetic::div_mod::lemma_mod_division_less_than_divisor(start, l);
    let (t, b) = find_gap_spec(lines, start, size)->Some_0;
    assert(t <= sl * l);
    assert(sl * l <= start);
}

/// With every line from the search start down to line 0 free, the search
/// returns the whole span below the start: gap top at the start's line
/// boundary, gap bottom at offset 0.
pub proof fn lemma_find_gap_all_free(lines: Seq<u8>, start: int, size: int)
    requires
        lines.len() == LINE_COUNT,
        0 <= start <= BLOCK_SIZE,
        1 <= size,
        forall|j: int| 0 <= j < start / (LINE_SIZE as int) ==> lines[j] == 0,
        lines_required_spec(size) <= start / (LINE_SIZE as int),
    ensures
        find_gap_spec(lines, start, size) == Some(
            ((start / (LINE_SIZE as int)) * (LINE_SIZE as int), 0int),
        ),
{
    let l = LINE_SIZE as int;
    let sl = start / l;
    let required = lines_required_spec(size);
    lemma_lines_required(size);
    vstd::arithmetic::div_mod::lemma_div_pos_is_pos(start, l);
    assert(required >= 1) by {
        vstd::arithmetic::div_mod::lemma_div_non_zero(size + l - 1, l);
    }
    lemma_gap_scan_all_free(lines, sl - 1, 0, sl, required);
}

/// A request needing exactly the lines between the search start and the
/// block's bottom, over a fully free span, is answered with a gap of
/// exactly that many lines, ending at offset 0.
pub proof fn lemma_find_gap_exact_span(lines: Seq<u8>, start: int, size: int)
    requires
        lines.len() == LINE_COUNT,
        0 <= start <= BLOCK_SIZE,
        1 <= size,
        forall|j: int| 0 <= j < start / (LINE_SIZE as int) ==> lines[j] == 0,
        lines_required_spec(size) == start / (LINE_SIZE as int),
    ensures
        ({
            let (t, b) = find_gap_spec(lines, start, size)->Some_0;
            &&& find_gap_spec(lines, start, size) is Some
            &&& b == 0
            &&& t - b == lines_required_spec(size) * (LINE_SIZE as int)
        }),
{
    lemma_find_gap_all_free(lines, start, size);
}

/// With every line from the search start down to line 0 marked, the search
/// finds nothing.
pub proof fn lemma_find_gap_all_marked(lines: Seq<u8>, start: int, size: int)
    requires
        lines.len() == LINE_COUNT,
        0 <= start <= BLOCK_SIZE,
        1 <= size,
        forall|j: int| 0 <= j < start / (LINE_SIZE as int) ==> lines[j] != 0,
    ensures
        find_gap_spec(lines, start, size) is None,
{
    let l = LINE_SIZE as int;
    let sl = start / l;
    let required = lines_required_spec(size);
    assert(required >= 1) by {
        vstd::arithmetic::div_mod::lemma_div_non_zero(size + l - 1, l);
    }
    vstd::arithmetic::div_mod::lemma_div_pos_is_pos(start, l);
    lemma_gap_scan_all_marked(lines, sl - 1, sl, required);
}

/// A single marked line `m` directly below an otherwise-sufficient free run
/// makes the search place the gap's bottom one full line above `m`, never
/// flush against it.
pub proof fn lemma_find_gap_buffers_marked_line(lines: Seq<u8>, start: int, size: int, m: int)
    requires
        lines.len() == LINE_COUNT,
        0 <= start <= BLOCK_SIZE,
        0 <= size,
        0 <= m < start / (LINE_SIZE as int) - 1,
        lines[m] != 0,
        forall|j: int| m < j < start / (LINE_SIZE as int) ==> lines[j] == 0,
        lines_required_spec(size) < start / (LINE_SIZE as int) - 1 - m,
    ensures
        find_gap_spec(lines, start, size) == Some(
            (
                (start / (LINE_SIZE as int)) * (LINE_SIZE as int),
                (m + 2) * (LINE_SIZE as int),
            ),
        ),
{
    let l = LINE_SIZE as int;
    let sl = start / l;
    let required = lines_required_spec(size);
    lemma_gap_scan_hits_mark(lines, sl - 1, 0, sl, required, m);
}

/// The per-line mark map of one block: one byte per line, zero meaning free.
pub struct BlockMeta {
    lines: Vec<u8>,
}

impl View for BlockMeta {
    type V = Seq<u8>;

    closed spec fn view(&self) -> Seq<u8> {
        self.lines@
    }
}

impl BlockMeta {
    /// The map holds exactly one mark per line.
    pub open spec fn wf(&self) -> bool {
        self@.len() == LINE_COUNT
    }

    /// A fresh map with every line free.
    pub fn new() -> (r: BlockMeta)
        ensures
            r.wf(),
            forall|j: int| 0 <= j < LINE_COUNT ==> r@[j] == 0,
    {
        let mut lines: Vec<u8> = Vec::new();
        while lines.len() < LINE_COUNT
            invariant
                lines@.len() <= LINE_COUNT,
                forall|j: int| 0 <= j < lines@.len() ==> lines@[j] == 0,
            decreases LINE_COUNT - lines@.len(),
        {
            lines.push(0);
        }
        BlockMeta { lines }
    }

    /// Marks line `index` as holding live data.
    pub fn mark_line(&mut self, index: usize)
        requires
            old(self).wf(),
            index < LINE_COUNT,
        ensures
            final(self).wf(),
            final(self)@ == old(self)@.update(index as int, 1u8),
    {
        self.lines.set(index, 1);
    }

    /// The mark byte of line `index`.
    pub fn line(&self, index: usize) -> (r: u8)
        requires
            self.wf(),
            index < LINE_COUNT,
        ensures
            r == self@[index as int],
    {
        self.lines[index]
    }

    /// Locates a gap of free lines able to hold `size` bytes, scanning
    /// backward from byte offset `start`. Returns the gap's `(top, bottom)`
    /// byte offsets.
    pub fn find_next_gap(&self, start: usize, size: usize) -> (r: Option<(usize, usize)>)
        requires
            self.wf(),
            start <= BLOCK_SIZE,
        ensures
            match r {
                Some((t, b)) => find_gap_spec(self@, start as int, size as int) == Some(
                    (t as int, b as int),
                ),
                None => find_gap_spec(self@, start as int, size as int) is None,
            },
    {
        let start_line = start / LINE_SIZE;
        if size > BLOCK_SIZE {
            proof {
                vstd::arithmetic::div_mod::lemma_div_is_ordered(
                    BLOCK_SIZE + LINE_SIZE as int,
                    size + LINE_SIZE - 1,
                    LINE_SIZE as int,
                );
                lemma_gap_scan_none_when_over(
                    self@,
                    start_line as int - 1,
                    0,
                    start_line as int,
                    lines_required_spec(size as int),
                );
            }
            return None;
        }
        let lines_required = (size + (LINE_SIZE - 1)) / LINE_SIZE;
        let mut count: usize = 0;
        let mut end: usize = start_line;
        let mut index: usize = start_line;
        while index > 0
            invariant
                self.wf(),
                size <= BLOCK_SIZE,
                lines_required == lines_required_spec(size as int),
                index <= end <= start_line <= LINE_COUNT,
                count == end - index,
                find_gap_spec(self@, start as int, size as int) == gap_scan(
                    self@,
                    index as int - 1,
                    count as int,
                    end as int,
                    lines_required as int,
                ),
            decreases index,
        {
            index = index - 1;
            let marked = self.line(index);
            if marked == 0 {
                count = count + 1;
                if index == 0 && count >= lines_required {
                    return Some((end * LINE_SIZE, 0));
                }
            } else {
                if count > lines_required {
                    return Some((end * LINE_SIZE, (index + 2) * LINE_SIZE));
                }
                count = 0;
                end = index;
            }
        }
        None
    }
}

} // verus!
