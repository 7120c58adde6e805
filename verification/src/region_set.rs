//! Escalation across blocks: a head cursor for small requests, an overflow
//! cursor for medium requests, and a pool of exhausted blocks.
//!
//! Each request first tries its cursor's block. When that block is
//! exhausted, a fresh block is acquired, the exhausted one moves into the
//! recyclable pool (awaiting an external sweep that clears its line marks),
//! and the request is served from the fresh block — which cannot fail for
//! any request within the block's capacity.

use vstd::prelude::*;
use crate::region::{AllocError, BLOCK_CAPACITY};
use crate::bump::{bump_alloc_spec, fresh_bump_state, lemma_fresh_serves, BumpBlock, BumpState};

verus! {

/// Mathematical state of a block set: the two cursors' states and the states
/// of the recyclable blocks, in the order they were retired.
pub struct BlockListView {
    pub head: Option<BumpState>,
    pub overflow: Option<BumpState>,
    pub rest: Seq<BumpState>,
}

/// The state of an optional cursor.
pub open spec fn slot_view(slot: Option<BumpBlock>) -> Option<BumpState> {
    match slot {
        Some(b) => Some(b@),
        None => None,
    }
}

/// How one allocation relates a cursor slot and the recyclable pool to their
/// previous states.
///
/// Either the old block served the request; or it was exhausted (or absent),
/// a fresh block's first allocation served the request, and the old block —
/// if there was one — was pushed onto the pool.
pub open spec fn escalate_post(
    old_slot: Option<BumpState>,
    new_slot: Option<BumpState>,
    old_rest: Seq<BumpState>,
    new_rest: Seq<BumpState>,
    size: int,
    a: int,
) -> bool {
    match old_slot {
        None => {
            &&& new_slot is Some
            &&& ({
                let (s2, r2) = bump_alloc_spec(fresh_bump_state(new_slot->Some_0.base), size);
                new_slot == Some(s2) && r2 == Some(a)
            })
            &&& new_rest == old_rest
        },
        Some(h0) => {
            let (s1, r1) = bump_alloc_spec(h0, size);
            if r1 is Some {
                &&& new_slot == Some(s1)
                &&& r1 == Some(a)
                &&& new_rest == old_rest
            } else {
                &&& new_slot is Some
                &&& ({
                    let (s2, r2) = bump_alloc_spec(
                        fresh_bump_state(new_slot->Some_0.base),
                        size,
                    );
                    new_slot == Some(s2) && r2 == Some(a)
                })
                &&& new_rest == old_rest.push(h0)
            }
        },
    }
}

/// The set of blocks owned by one allocator: the head cursor serving small
/// requests, the overflow cursor serving medium requests, and the exhausted
/// blocks pending recycling.
pub struct BlockList {
    head: Option<BumpBlock>,
    overflow: Option<BumpBlock>,
    rest: Vec<BumpBlock>,
}

impl View for BlockList {
    type V = BlockListView;

    closed spec fn view(&self) -> BlockListView {
        BlockListView {
            head: slot_view(self.head),
            overflow: slot_view(self.overflow),
            rest: self.rest@.map_values(|b: BumpBlock| b@),
        }
    }
}

/// Serves one request from the given cursor slot, escalating to a fresh
/// block when the slot is empty or its block is exhausted; the exhausted
/// block is pushed onto `rest`.
fn cursor_alloc(slot: &mut Option<BumpBlock>, rest: &mut Vec<BumpBlock>, size: usize) -> (r:
    Result<usize, AllocError>)
    requires
        (*old(slot) matches Some(b) ==> b.wf()),
        forall|i: int| 0 <= i < old(rest)@.len() ==> (#[trigger] old(rest)@[i]).wf(),
        size <= BLOCK_CAPACITY,
    ensures
        r is Ok,
        (*final(slot) matches Some(b) ==> b.wf()),
        forall|i: int| 0 <= i < final(rest)@.len() ==> (#[trigger] final(rest)@[i]).wf(),
        r matches Ok(a) ==> escalate_post(
            slot_view(*old(slot)),
            slot_view(*final(slot)),
            old(rest)@.map_values(|b: BumpBlock| b@),
            final(rest)@.map_values(|b: BumpBlock| b@),
            size as int,
            a as int,
        ),
        r matches Err(e) ==> e == AllocError::OOM && slot_view(*final(slot)) == slot_view(
            *old(slot),
        ) && final(rest)@ == old(rest)@,
{
    let current = slot.take();
    match current {
        None => {
            let mut fresh = match BumpBlock::new() {
                Ok(b) => b,
                Err(e) => {
                    return Err(e);
                },
            };
            proof {
                fresh.lemma_wf_state();
                lemma_fresh_serves(fresh@.base, size as int);
            }
            let a = fresh.inner_alloc(size);
            *slot = Some(fresh);
            Ok(a.unwrap())
        },
        Some(mut hb) => {
            match hb.inner_alloc(size) {
                Some(a) => {
                    *slot = Some(hb);
                    Ok(a)
                },
                None => {
                    let mut fresh = match BumpBlock::new() {
                        Ok(b) => b,
                        Err(e) => {
                            *slot = Some(hb);
                            return Err(e);
                        },
                    };
                    proof {
                        fresh.lemma_wf_state();
                        lemma_fresh_serves(fresh@.base, size as int);
                    }
                    let a = fresh.inner_alloc(size);
                    let ghost old_rest_states = rest@.map_values(|b: BumpBlock| b@);
                    rest.push(hb);
                    proof {
                        assert(rest@.map_values(|b: BumpBlock| b@) =~= old_rest_states.push(
                            hb@,
                        ));
                    }
                    *slot = Some(fresh);
                    Ok(a.unwrap())
                },
            }
        },
    }
}

impl BlockList {
    /// Every owned block is well formed.
    pub closed spec fn wf(&self) -> bool {
        &&& (self.head matches Some(b) ==> b.wf())
        &&& (self.overflow matches Some(b) ==> b.wf())
        &&& forall|i: int| 0 <= i < self.rest@.len() ==> (#[trigger] self.rest@[i]).wf()
    }

    /// An empty block set: no cursors, nothing recyclable.
    pub fn new() -> (r: BlockList)
        ensures
            r.wf(),
            r@.head is None,
            r@.overflow is None,
            r@.rest == Seq::<BumpState>::empty(),
    {
        let r = BlockList { head: None, overflow: None, rest: Vec::new() };
        proof {
            assert(r@.rest =~= Seq::<BumpState>::empty());
        }
        r
    }

    /// Serves a small request from the head cursor, escalating to a fresh
    /// block when the head block is exhausted.
    pub fn head_alloc(&mut self, size: usize) -> (r: Result<usize, AllocError>)
        requires
            old(self).wf(),
            size <= BLOCK_CAPACITY,
        ensures
            r is Ok,
            final(self).wf(),
            final(self)@.overflow == old(self)@.overflow,
            r matches Ok(a) ==> escalate_post(
                old(self)@.head,
                final(self)@.head,
                old(self)@.rest,
                final(self)@.rest,
                size as int,
                a as int,
            ),
            r matches Err(e) ==> e == AllocError::OOM && final(self)@ == old(self)@,
    {
        let r = cursor_alloc(&mut self.head, &mut self.rest, size);
        r
    }

    /// Serves a medium request from the overflow cursor, escalating to a
    /// fresh block when the overflow block is exhausted.
    pub fn overflow_alloc(&mut self, size: usize) -> (r: Result<usize, AllocError>)
        requires
            old(self).wf(),
            size <= BLOCK_CAPACITY,
        ensures
            r is Ok,
            final(self).wf(),
            final(self)@.head == old(self)@.head,
            r matches Ok(a) ==> escalate_post(
                old(self)@.overflow,
                final(self)@.overflow,
                old(self)@.rest,
                final(self)@.rest,
                size as int,
                a as int,
            ),
            r matches Err(e) ==> e == AllocError::OOM && final(self)@ == old(self)@,
    {
        let r = cursor_alloc(&mut self.overflow, &mut self.rest, size);
        r
    }

    /// Base address of the head cursor's block, if one is held.
    pub fn head_base(&self) -> (r: Option<usize>)
        requires
            self.wf(),
        ensures
            match r {
                Some(b) => self@.head matches Some(h) && h.base == b as int,
                None => self@.head is None,
            },
    {
        match &self.head {
            Some(b) => Some(b.base_address()),
            None => None,
        }
    }

    /// Base address of the overflow cursor's block, if one is held.
    pub fn overflow_base(&self) -> (r: Option<usize>)
        requires
            self.wf(),
        ensures
            match r {
                Some(b) => self@.overflow matches Some(h) && h.base == b as int,
                None => self@.overflow is None,
            },
    {
        match &self.overflow {
            Some(b) => Some(b.base_address()),
            None => None,
        }
    }

    /// Number of blocks waiting in the recyclable pool.
    pub fn rest_len(&self) -> (r: usize)
        ensures
            r == self@.rest.len(),
    {
        self.rest.len()
    }

    /// Base address of the recyclable block at `index`.
    pub fn rest_base(&self, index: usize) -> (r: usize)
        requires
            self.wf(),
            index < self@.rest.len(),
        ensures
            r as int == self@.rest[index as int].base,
    {
        self.rest[index].base_address()
    }
}

/// Retiring a block adds exactly one occurrence of its state to the
/// recyclable pool: every other state keeps its count.
pub proof fn lemma_recycled_exactly_once(rest: Seq<BumpState>, h0: BumpState)
    ensures
        rest.push(h0).to_multiset().count(h0) == rest.to_multiset().count(h0) + 1,
        forall|s: BumpState|
            s != h0 ==> rest.push(h0).to_multiset().count(s) == rest.to_multiset().count(s),
{
    broadcast use vstd::seq_lib::group_to_multiset_ensures;

    assert(rest.push(h0).to_multiset() =~= rest.to_multiset().insert(h0));
}

} // verus!
