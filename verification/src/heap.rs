//! The allocation entry point.
//!
//! A [`Heap`] owns one [`BlockList`] and routes each request by its size
//! class: small requests go to the head cursor, medium requests to the
//! overflow cursor (so they do not fragment the head block), and large
//! requests — beyond one block's usable capacity — are not served by this
//! allocator and are rejected as unsupported.

use vstd::prelude::*;
use crate::region::{AllocError, BLOCK_CAPACITY, LINE_SIZE};
use crate::region_set::{escalate_post, BlockList, BlockListView};
use crate::bump::BumpState;

verus! {

/// Classification of a requested size against the line size and the block
/// capacity.
#[derive(Clone, Copy, Debug, PartialEq, Eq, Structural)]
pub enum SizeClass {
    /// Fits inside one line; served by the head cursor.
    Small,
    /// Larger than a line but within one block's capacity; served by the
    /// overflow cursor.
    Medium,
    /// Exceeds one block's usable capacity; not served by this allocator.
    Large,
}

/// The size class of a request.
pub open spec fn size_class_spec(size: int) -> SizeClass {
    if size <= LINE_SIZE {
        SizeClass::Small
    } else if size <= BLOCK_CAPACITY {
        SizeClass::Medium
    } else {
        SizeClass::Large
    }
}

impl SizeClass {
    /// Classifies a requested size.
    pub fn for_size(size: usize) -> (r: SizeClass)
        ensures
            r == size_class_spec(size as int),
    {
        if size <= LINE_SIZE {
            SizeClass::Small
        } else if size <= BLOCK_CAPACITY {
            SizeClass::Medium
        } else {
            SizeClass::Large
        }
    }
}

/// The allocator: one block set behind a single allocation call.
///
/// A successful call returns a word-aligned address; the caller owns the
/// object model and writes its header at that address.
pub struct Heap {
    blocks: BlockList,
}

impl View for Heap {
    type V = BlockListView;

    closed spec fn view(&self) -> BlockListView {
        self.blocks@
    }
}

impl Heap {
    /// The owned block set is well formed.
    pub closed spec fn wf(&self) -> bool {
        self.blocks.wf()
    }

    /// A fresh heap holding no blocks; blocks are acquired on first use.
    pub fn new() -> (r: Heap)
        ensures
            r.wf(),
            r@.head is None,
            r@.overflow is None,
            r@.rest == Seq::<BumpState>::empty(),
    {
        Heap { blocks: BlockList::new() }
    }

    /// Serves one allocation request of `size` bytes under the given size
    /// class.
    ///
    /// A `Large` class, or any size beyond one block's capacity, is rejected
    /// as unsupported. A small request is served by the head cursor, a
    /// medium one by the overflow cursor; either escalates to a fresh block
    /// when its current block is exhausted, so within the supported range
    /// the only failure is the failure to acquire a block.
    pub fn find_space(&mut self, size: usize, size_class: SizeClass) -> (r: Result<
        usize,
        AllocError,
    >)
        requires
            old(self).wf(),
        ensures
            final(self).wf(),
            r == Err::<usize, AllocError>(AllocError::Unsupported) <==> (size_class
                == SizeClass::Large || size > BLOCK_CAPACITY),
            r is Err ==> final(self)@ == old(self)@ && r == Err::<usize, AllocError>(
                AllocError::Unsupported,
            ),
            r is Ok <==> (size_class != SizeClass::Large && size <= BLOCK_CAPACITY),
            size_class == SizeClass::Small && size <= BLOCK_CAPACITY ==> {
                &&& final(self)@.overflow == old(self)@.overflow
                &&& (r matches Ok(a) ==> escalate_post(
                    old(self)@.head,
                    final(self)@.head,
                    old(self)@.rest,
                    final(self)@.rest,
                    size as int,
                    a as int,
                ))
            },
            size_class == SizeClass::Medium && size <= BLOCK_CAPACITY ==> {
                &&& final(self)@.head == old(self)@.head
                &&& (r matches Ok(a) ==> escalate_post(
                    old(self)@.overflow,
                    final(self)@.overflow,
                    old(self)@.rest,
                    final(self)@.rest,
                    size as int,
                    a as int,
                ))
            },
    {
        if size > BLOCK_CAPACITY {
            return Err(AllocError::Unsupported);
        }
        match size_class {
            SizeClass::Small => self.blocks.head_alloc(size),
            SizeClass::Medium => self.blocks.overflow_alloc(size),
            SizeClass::Large => Err(AllocError::Unsupported),
        }
    }

    /// Base address of the head cursor's block, if one is held.
    pub fn head_base(&self) -> (r: Option<usize>)
        requires
            self.wf(),
        ensures
            match r {
                Some(b) => self@.head matches Some(h) && h.base == b as int,
                None => self@.head is None,
            },
    {
        self.blocks.head_base()
    }

    /// Base address of the overflow cursor's block, if one is held.
    pub fn overflow_base(&self) -> (r: Option<usize>)
        requires
            self.wf(),
        ensures
            match r {
                Some(b) => self@.overflow matches Some(h) && h.base == b as int,
                None => self@.overflow is None,
            },
    {
        self.blocks.overflow_base()
    }

    /// Number of blocks waiting in the recyclable pool.
    pub fn rest_len(&self) -> (r: usize)
        ensures
            r == self@.rest.len(),
    {
        self.blocks.rest_len()
    }

    /// Base address of the recyclable block at `index`.
    pub fn rest_base(&self, index: usize) -> (r: usize)
        requires
            self.wf(),
            index < self@.rest.len(),
        ensures
            r as int == self@.rest[index as int].base,
    {
        self.blocks.rest_base(index)
    }
}

} // verus!
