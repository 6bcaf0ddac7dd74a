use archdash::HistoryBuffer;

#[test]
fn empty_buffer_has_empty_snapshot() {
    let buf = HistoryBuffer::new(100);
    assert_eq!(buf.capacity(), 100);
    assert_eq!(buf.len(), 0);
    assert_eq!(buf.snapshot(), Vec::<i64>::new());
}

#[test]
fn push_into_empty_leaves_length_one() {
    let mut buf = HistoryBuffer::new(100);
    buf.push(42);
    assert_eq!(buf.len(), 1);
    assert_eq!(buf.snapshot(), vec![42]);
}

#[test]
fn length_is_pushes_until_capacity() {
    let mut buf = HistoryBuffer::new(3);
    for (count, value) in [10i64, 20, 30, 40, 50].iter().enumerate() {
        buf.push(*value);
        let expected = if count + 1 < 3 { count + 1 } else { 3 };
        assert_eq!(buf.len(), expected);
    }
}

#[test]
fn fifo_eviction_keeps_last_capacity_samples() {
    let mut buf = HistoryBuffer::new(3);
    buf.push(1);
    buf.push(2);
    buf.push(3);
    buf.push(4);
    assert_eq!(buf.snapshot(), vec![2, 3, 4]);
}

#[test]
fn oldest_retained_is_push_count_minus_capacity_plus_one() {
    let mut buf = HistoryBuffer::new(4);
    for value in 1..=9i64 {
        buf.push(value);
    }
    // 9 pushes, capacity 4: the oldest retained is the 6th pushed value.
    assert_eq!(buf.snapshot(), vec![6, 7, 8, 9]);
}

#[test]
fn values_stored_unmodified() {
    let mut buf = HistoryBuffer::new(10);
    buf.push(-77);
    buf.push(0);
    buf.push(i64::MAX);
    assert_eq!(buf.snapshot(), vec![-77, 0, i64::MAX]);
}

#[test]
fn capacity_is_fixed_at_construction() {
    let mut buf = HistoryBuffer::new(2);
    for value in 0..100i64 {
        buf.push(value);
        assert_eq!(buf.capacity(), 2);
    }
    assert_eq!(buf.snapshot(), vec![98, 99]);
}

#[test]
fn zero_capacity_buffer_stays_empty() {
    let mut buf = HistoryBuffer::new(0);
    buf.push(5);
    buf.push(6);
    assert_eq!(buf.len(), 0);
    assert_eq!(buf.snapshot(), Vec::<i64>::new());
}
