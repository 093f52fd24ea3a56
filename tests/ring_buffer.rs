use snake_os::ring_buffer::RingBuffer;

fn buffer(capacity: usize) -> RingBuffer<u32> {
    RingBuffer::new(vec![0u32; capacity])
}

#[test]
fn new_buffer_is_empty() {
    let b = buffer(4);
    assert!(b.is_empty());
    assert!(!b.is_full());
    assert_eq!(b.len(), 0);
    assert_eq!(b.capacity_of(), 4);
}

#[test]
fn length_counts_inserts_minus_pops() {
    let mut b = buffer(5);
    b.append(1);
    b.prepend(2);
    b.append(3);
    assert_eq!(b.len(), 3);
    b.pop_first();
    assert_eq!(b.len(), 2);
    b.prepend(4);
    b.append(5);
    b.pop_last();
    assert_eq!(b.len(), 3);
}

#[test]
fn pop_first_after_appends_is_fifo() {
    let mut b = buffer(4);
    for x in [10, 20, 30, 40] {
        b.append(x);
    }
    assert_eq!(b.pop_first(), 10);
    assert_eq!(b.pop_first(), 20);
    assert_eq!(b.pop_first(), 30);
    assert_eq!(b.pop_first(), 40);
    assert!(b.is_empty());
}

#[test]
fn append_then_pop_last_keeps_length() {
    let mut b = buffer(4);
    b.append(1);
    b.append(2);
    let before = b.len();
    b.append(7);
    assert_eq!(b.pop_last(), 7);
    assert_eq!(b.len(), before);
    assert_eq!(*b.peek_last(), 2);
}

#[test]
fn capacity_inserts_make_it_full() {
    let mut b = buffer(3);
    b.append(1);
    b.prepend(0);
    assert!(!b.is_full());
    b.append(2);
    assert!(b.is_full());
    assert_eq!(b.len(), 3);
    assert_eq!(*b.peek_first(), 0);
    assert_eq!(*b.peek_last(), 2);
}

#[test]
fn prepend_wraps_below_slot_zero() {
    let mut b = buffer(4);
    b.prepend(3);
    b.prepend(2);
    b.prepend(1);
    assert_eq!(*b.peek_first(), 1);
    assert_eq!(*b.peek_ith(1), 2);
    assert_eq!(*b.peek_ith(2), 3);
    assert_eq!(*b.peek_last(), 3);
    assert_eq!(b.pop_last(), 3);
    assert_eq!(b.pop_first(), 1);
    assert_eq!(b.len(), 1);
}

#[test]
fn wraps_around_the_end_of_storage() {
    let mut b = buffer(3);
    b.append(1);
    b.append(2);
    b.pop_first();
    b.pop_first();
    b.append(3);
    b.append(4);
    b.append(5);
    assert!(b.is_full());
    assert_eq!(*b.peek_ith(0), 3);
    assert_eq!(*b.peek_ith(1), 4);
    assert_eq!(*b.peek_ith(2), 5);
    assert_eq!(b.pop_first(), 3);
    assert!(!b.is_full());
}

#[test]
fn triple_iter_yields_overlapping_windows() {
    let mut b = buffer(8);
    for x in ['A', 'B', 'C', 'D'] {
        b.append(x as u32);
    }
    let mut it = b.triple_iter();
    assert_eq!(it.next(), Some(('A' as u32, 'B' as u32, 'C' as u32)));
    assert_eq!(it.next(), Some(('B' as u32, 'C' as u32, 'D' as u32)));
    assert_eq!(it.next(), None);
    assert_eq!(it.next(), None);
}

#[test]
fn triple_iter_on_three_elements_yields_one_window() {
    let mut b = buffer(3);
    b.append(1);
    b.append(2);
    b.append(3);
    let mut it = b.triple_iter();
    assert_eq!(it.next(), Some((1, 2, 3)));
    assert_eq!(it.next(), None);
}

#[test]
fn triple_iter_over_wrapped_storage() {
    let mut b = buffer(4);
    b.append(9);
    b.append(9);
    b.pop_first();
    b.pop_first();
    for x in [1, 2, 3, 4] {
        b.append(x);
    }
    let mut it = b.triple_iter();
    assert_eq!(it.next(), Some((1, 2, 3)));
    assert_eq!(it.next(), Some((2, 3, 4)));
    assert_eq!(it.next(), None);
}
