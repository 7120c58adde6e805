use morph::list::{chunk_size, chunk_start, index_chunk, List, FIRST_CHUNK_SIZE};

#[test]
fn from_iterator() {
    let mut l: List<i32> = List::new();
    for i in 0..100 {
        l.push(i);
    }

    for i in 0..100 {
        assert_eq!(l.get(i), Some(&(i as i32)));
    }
}

#[test]
fn iterator() {
    let mut l: List<i32> = List::new();
    for i in 0..100 {
        l.push(i);
    }
    let mut i1 = l.iter();
    let mut i2 = l.iter();

    for item in 0..100 {
        assert_eq!(i1.next(&l), Some(&item));
        assert_eq!(i2.next(&l), Some(&item));
    }

    assert_eq!(i1.next(&l), None);
    assert_eq!(i2.next(&l), None);
}

#[test]
fn equality() {
    let mut a = List::new();
    let mut b = List::new();

    assert_eq!(a, b);

    a.push("foo");

    assert_ne!(a, b);

    b.push("foo");

    assert_eq!(a, b);

    a.push("bar");
    a.push("baz");

    assert_ne!(a, b);
}

#[test]
fn iterator_size_hint() {
    let mut l: List<i32> = List::new();
    let mut i = l.iter();
    assert_eq!(i.size_hint(&l), (0, Some(0)));

    l.push(1);
    assert_eq!(i.size_hint(&l), (1, Some(1)));

    l.push(2);
    assert_eq!(i.size_hint(&l), (2, Some(2)));

    i.next(&l);
    assert_eq!(i.size_hint(&l), (1, Some(1)));

    l.push(3);
    assert_eq!(i.size_hint(&l), (2, Some(2)));

    i.next(&l);
    assert_eq!(i.size_hint(&l), (1, Some(1)));

    i.next(&l);
    assert_eq!(i.size_hint(&l), (0, Some(0)));
}

#[test]
fn chunk_sizes_make_sense() {
    assert_eq!(chunk_size(0), FIRST_CHUNK_SIZE);

    let mut index = 0;

    for chunk in 0..20 {
        // Each chunk starts just after the previous one ends
        assert_eq!(chunk_start(chunk), index);
        index += chunk_size(chunk);
    }
}

#[test]
fn index_chunk_matches_up() {
    for index in 0..1_000_000 {
        let chunk_id = index_chunk(index);

        // Each index happens after its chunk start and before its chunk end
        assert!(index >= chunk_start(chunk_id));
        assert!(index < chunk_start(chunk_id) + chunk_size(chunk_id));
    }
}

#[test]
fn empty_list() {
    let n: List<usize> = List::new();

    assert_eq!(n.len(), 0);
    assert_eq!(n.get(0), None);

    let d: List<usize> = List::default();

    assert_eq!(d.len(), 0);
    assert_eq!(d.get(0), None);
}

#[test]
fn thousand_item_list() {
    test_big_list(1_000);
}

fn test_big_list(size: usize) {
    let mut l = List::new();
    let mut values = Vec::new();

    for i in 0..size {
        assert_eq!(l.len(), i);

        l.push(i);
        values.push(i);

        assert_eq!(l.len(), i + 1);
    }

    for i in 0..size {
        assert_eq!(Some(&values[i]), l.get(i));
    }
}
