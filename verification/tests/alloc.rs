use morph::{AllocError, Block, BlockList, BlockMeta, BumpBlock, Heap, SizeClass};
use morph::region::{BLOCK_CAPACITY, BLOCK_SIZE, LINE_COUNT, LINE_SIZE};

#[test]
fn created_blocks_are_self_aligned() {
    for bits in 0..17 {
        let size = 1usize << bits;
        let block = match Block::new(size) {
            Ok(b) => b,
            Err(_) => panic!("a power-of-two size must be served"),
        };
        assert_eq!(block.size(), size);
        assert_eq!(block.as_ptr() % size, 0);
        assert!(block.as_ptr() != 0);
        block.drop();
    }
}

#[test]
fn non_power_of_two_sizes_are_invalid() {
    for size in [0usize, 3, 6, 12, 100, 32767, 32769] {
        assert!(matches!(Block::new(size), Err(AllocError::InvalidSize)));
    }
}

#[test]
fn unrepresentable_block_request_is_out_of_memory() {
    // a power of two so large that no padded buffer for it fits the address
    // space is refused before any acquisition
    let size = 1usize << 63;
    assert!(matches!(Block::new(size), Err(AllocError::OOM)));
}

#[test]
fn gap_search_finds_whole_free_block() {
    let meta = BlockMeta::new();
    // marks all zero, searching from the top line
    assert_eq!(meta.find_next_gap(BLOCK_SIZE, LINE_SIZE), Some((BLOCK_SIZE, 0)));
    assert_eq!(meta.find_next_gap(BLOCK_SIZE, 5 * LINE_SIZE), Some((BLOCK_SIZE, 0)));
    // the whole span below the search start is returned
    assert_eq!(meta.find_next_gap(10 * LINE_SIZE, LINE_SIZE), Some((10 * LINE_SIZE, 0)));
}

#[test]
fn gap_search_fails_on_fully_marked_block() {
    let mut meta = BlockMeta::new();
    for line in 0..LINE_COUNT {
        meta.mark_line(line);
    }
    assert_eq!(meta.find_next_gap(BLOCK_SIZE, 1), None);
    assert_eq!(meta.find_next_gap(17 * LINE_SIZE, LINE_SIZE), None);
}

#[test]
fn gap_bottom_keeps_a_buffer_line_above_a_mark() {
    let mut meta = BlockMeta::new();
    meta.mark_line(100);
    let gap = meta.find_next_gap(120 * LINE_SIZE, LINE_SIZE);
    // the gap's bottom sits at line 102: line 101 is the buffer above the
    // marked line 100, never flush against it
    assert_eq!(gap, Some((120 * LINE_SIZE, 102 * LINE_SIZE)));
}

#[test]
fn gap_search_avoids_marked_lines() {
    let mut meta = BlockMeta::new();
    for line in 10..20 {
        meta.mark_line(line);
    }
    let (top, bottom) = meta.find_next_gap(30 * LINE_SIZE, 3 * LINE_SIZE).unwrap();
    // the gap lies entirely within lines 20..=29 and never overlaps the
    // marked lines 10..=19
    assert_eq!((top, bottom), (30 * LINE_SIZE, 21 * LINE_SIZE));
    assert!(bottom >= 20 * LINE_SIZE);
    assert!(top <= 30 * LINE_SIZE);
}

#[test]
fn fresh_block_serves_a_full_run_of_allocations() {
    let mut block = BumpBlock::new().unwrap();
    let mut last = None;
    // 315 * 104 aligned bytes == 32760 <= 32768: every request is served
    for _ in 0..315 {
        let addr = block.inner_alloc(100);
        assert!(addr.is_some());
        let addr = addr.unwrap();
        assert_eq!(addr % 8, 0);
        if let Some(prev) = last {
            assert!(addr < prev, "returned addresses must strictly decrease");
        }
        last = Some(addr);
    }
    // the very next request no longer fits
    assert_eq!(block.inner_alloc(100), None);
}

#[test]
fn failed_allocation_leaves_cursor_and_limit_untouched() {
    let mut block = BumpBlock::new().unwrap();
    assert!(block.inner_alloc(1000).is_some());
    let cursor = block.cursor_address();
    let limit = block.limit_address();
    // larger than the largest free run that is left
    assert_eq!(block.inner_alloc(BLOCK_SIZE), None);
    assert_eq!(block.cursor_address(), cursor);
    assert_eq!(block.limit_address(), limit);
}

#[test]
fn allocation_skips_marked_lines() {
    let mut block = BumpBlock::new().unwrap();
    for line in 10..20 {
        block.mark_line(line);
    }
    let base = block.base_address();
    let addr = block.inner_alloc(100).unwrap();
    // the discovered gap stops one buffer line above the marked region, so
    // the allocation lies entirely above line 20
    assert!(addr >= base + 21 * LINE_SIZE);
    assert!(addr + 100 <= base + BLOCK_SIZE);
}

#[test]
fn first_allocation_lands_below_the_block_top() {
    let mut heap = Heap::new();
    let addr = heap.find_space(100, SizeClass::Small).unwrap();
    let base = heap.head_base().unwrap();
    // 100 bytes round up to 104: the address is exactly one aligned size
    // below the block's top
    assert_eq!(addr, base + BLOCK_SIZE - 104);
}

#[test]
fn exhausted_block_is_replaced_and_recycled_once() {
    let mut heap = Heap::new();
    assert_eq!(heap.rest_len(), 0);
    let first = heap.find_space(LINE_SIZE, SizeClass::Small).unwrap();
    assert!(first != 0);
    let first_base = heap.head_base().unwrap();
    let mut calls = 1;
    while heap.rest_len() == 0 {
        let addr = heap.find_space(LINE_SIZE, SizeClass::Small);
        assert!(addr.is_ok(), "escalation must serve the request");
        calls += 1;
        assert!(calls < 1000, "a block must fill up eventually");
    }
    // one block of 32768 bytes serves 256 line-sized requests; the 257th
    // acquires a fresh block
    assert_eq!(calls, 257);
    // the exhausted block sits in the recyclable pool exactly once
    assert_eq!(heap.rest_len(), 1);
    assert_eq!(heap.rest_base(0), first_base);
    // and the head cursor now runs over a different block
    assert_ne!(heap.head_base().unwrap(), first_base);
}

#[test]
fn medium_requests_use_the_overflow_cursor() {
    let mut heap = Heap::new();
    assert!(heap.overflow_base().is_none());
    let addr = heap.find_space(4 * LINE_SIZE, SizeClass::Medium).unwrap();
    let base = heap.overflow_base().unwrap();
    assert!(heap.head_base().is_none());
    assert_eq!(addr, base + BLOCK_SIZE - 4 * LINE_SIZE);
}

#[test]
fn block_list_serves_both_cursors() {
    let mut blocks = BlockList::new();
    let small = blocks.head_alloc(64).unwrap();
    let medium = blocks.overflow_alloc(1000).unwrap();
    assert_eq!(small % 8, 0);
    assert_eq!(medium % 8, 0);
    assert_eq!(blocks.rest_len(), 0);
    assert!(blocks.head_base().is_some());
    assert!(blocks.overflow_base().is_some());
}

#[test]
fn oversized_requests_are_unsupported() {
    let mut heap = Heap::new();
    assert!(matches!(
        heap.find_space(BLOCK_CAPACITY + 1, SizeClass::Small),
        Err(AllocError::Unsupported)
    ));
    assert!(matches!(heap.find_space(100, SizeClass::Large), Err(AllocError::Unsupported)));
    assert!(matches!(
        heap.find_space(2 * BLOCK_SIZE, SizeClass::Large),
        Err(AllocError::Unsupported)
    ));
    // nothing was acquired along the way
    assert!(heap.head_base().is_none());
    assert!(heap.overflow_base().is_none());
}

#[test]
fn size_classes_follow_the_two_thresholds() {
    assert_eq!(SizeClass::for_size(0), SizeClass::Small);
    assert_eq!(SizeClass::for_size(1), SizeClass::Small);
    assert_eq!(SizeClass::for_size(LINE_SIZE), SizeClass::Small);
    assert_eq!(SizeClass::for_size(LINE_SIZE + 1), SizeClass::Medium);
    assert_eq!(SizeClass::for_size(BLOCK_CAPACITY), SizeClass::Medium);
    assert_eq!(SizeClass::for_size(BLOCK_CAPACITY + 1), SizeClass::Large);
    assert_eq!(SizeClass::for_size(usize::MAX), SizeClass::Large);
}

#[test]
fn line_marks_read_back() {
    let mut meta = BlockMeta::new();
    assert_eq!(meta.line(7), 0);
    meta.mark_line(7);
    assert_eq!(meta.line(7), 1);
    assert_eq!(meta.line(8), 0);
}
