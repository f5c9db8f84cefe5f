use spsc_ringbuffer::available_to_read;
use spsc_ringbuffer::available_to_write;
use spsc_ringbuffer::next_index;
use spsc_ringbuffer::BufferState;
use spsc_ringbuffer::LimitKind;
use spsc_ringbuffer::LoadErrorKind;
use spsc_ringbuffer::SpscRingbuffer;
use spsc_ringbuffer::StoreErrorKind;

#[test]
fn fill_levels() {
    for n in 0..=8u32 {
        let mut buffer = SpscRingbuffer::<u32>::new(8);
        for i in 0..n {
            buffer.push(i).unwrap();
        }
        assert_eq!(buffer.read_available(), n as usize);
        assert_eq!(buffer.write_available(), 8 - n as usize);
    }
}

#[test]
fn push_on_full_changes_nothing() {
    let mut buffer = SpscRingbuffer::<u32>::new(4);
    for i in 0..4 {
        buffer.push(i).unwrap();
    }
    assert_eq!(buffer.write_available(), 0);
    assert_eq!(buffer.push(99), Err(StoreErrorKind::Full));
    assert_eq!(buffer.read_available(), 4);
    for i in 0..4 {
        assert_eq!(buffer.pop().unwrap(), i);
    }
}

#[test]
fn pop_on_empty_changes_nothing() {
    let mut buffer = SpscRingbuffer::<u32>::new(4);
    assert_eq!(buffer.read_available(), 0);
    assert_eq!(buffer.pop(), Err(LoadErrorKind::Empty));
    assert_eq!(buffer.write_available(), 4);
}

#[test]
fn fifo_interleaved() {
    let mut buffer = SpscRingbuffer::<u32>::new(3);
    let mut popped = Vec::new();

    buffer.push(10).unwrap();
    buffer.push(11).unwrap();
    popped.push(buffer.pop().unwrap());
    buffer.push(12).unwrap();
    buffer.push(13).unwrap();
    popped.push(buffer.pop().unwrap());
    popped.push(buffer.pop().unwrap());
    buffer.push(14).unwrap();
    popped.push(buffer.pop().unwrap());
    popped.push(buffer.pop().unwrap());

    assert_eq!(popped, vec![10, 11, 12, 13, 14]);
    assert!(buffer.is_empty());
}

#[test]
fn wraparound() {
    let mut buffer = SpscRingbuffer::<u32>::new(8);
    let values: Vec<u32> = (100..108).collect();

    let mut first_round = Vec::new();
    for v in &values {
        buffer.push(*v).unwrap();
    }
    for _ in 0..8 {
        first_round.push(buffer.pop().unwrap());
    }

    let mut second_round = Vec::new();
    for v in &values {
        buffer.push(*v).unwrap();
    }
    for _ in 0..8 {
        second_round.push(buffer.pop().unwrap());
    }

    assert_eq!(first_round, values);
    assert_eq!(second_round, values);
}

#[test]
fn clear_restores_capacity() {
    let mut buffer = SpscRingbuffer::<u32>::new(5);
    for i in 0..5 {
        buffer.push(i).unwrap();
    }
    assert!(buffer.is_full());

    buffer.clear();

    assert!(buffer.is_empty());
    assert_eq!(buffer.write_available(), 5);
    assert_eq!(buffer.read_available(), 0);
}

#[test]
fn zero_capacity() {
    let mut buffer = SpscRingbuffer::<u32>::new(0);
    assert!(buffer.is_empty());
    assert!(buffer.is_full());
    assert_eq!(buffer.read_available(), 0);
    assert_eq!(buffer.write_available(), 0);
    assert_eq!(buffer.push(1), Err(StoreErrorKind::Full));
    assert_eq!(buffer.pop(), Err(LoadErrorKind::Empty));
}

#[test]
fn single_slot() {
    let mut buffer = SpscRingbuffer::<u32>::new(1);
    for i in 0..5 {
        buffer.push(i).unwrap();
        assert!(buffer.is_full());
        assert_eq!(buffer.push(i), Err(StoreErrorKind::Full));
        assert_eq!(buffer.pop().unwrap(), i);
        assert!(buffer.is_empty());
    }
}

#[test]
fn state_round_trip() {
    let mut buffer = SpscRingbuffer::<u32>::new(4);
    for i in 0..4 {
        buffer.push(i).unwrap();
    }
    buffer.pop().unwrap();
    buffer.pop().unwrap();
    buffer.push(40).unwrap();

    let state = buffer.save_state();
    let mut restored = SpscRingbuffer::restore_state(&state).unwrap();

    assert_eq!(restored.read_available(), buffer.read_available());
    assert_eq!(restored.write_available(), buffer.write_available());
    for _ in 0..3 {
        assert_eq!(restored.pop().unwrap(), buffer.pop().unwrap());
    }
    assert!(restored.is_empty());
}

#[test]
fn restore_rejects_bad_cursors() {
    let state = BufferState::<u32> {
        storage: vec![0, 0, 0],
        write_index: 3,
        read_index: 0,
        limit_kind: LimitKind::Empty,
    };
    assert!(SpscRingbuffer::restore_state(&state).is_none());

    let state = BufferState::<u32> {
        storage: vec![],
        write_index: 0,
        read_index: 0,
        limit_kind: LimitKind::Full,
    };
    assert!(SpscRingbuffer::restore_state(&state).is_none());
}

#[test]
fn restore_full_buffer() {
    let state = BufferState::<u32> {
        storage: vec![7, 8, 9],
        write_index: 1,
        read_index: 1,
        limit_kind: LimitKind::Full,
    };
    let mut restored = SpscRingbuffer::restore_state(&state).unwrap();
    assert!(restored.is_full());
    assert_eq!(restored.pop().unwrap(), 8);
    assert_eq!(restored.pop().unwrap(), 9);
    assert_eq!(restored.pop().unwrap(), 7);
    assert!(restored.is_empty());
}

#[test]
fn cursor_arithmetic() {
    assert_eq!(available_to_read(0, 0, 8, LimitKind::Empty), 0);
    assert_eq!(available_to_read(3, 3, 8, LimitKind::Full), 8);
    assert_eq!(available_to_read(5, 2, 8, LimitKind::Empty), 3);
    assert_eq!(available_to_read(2, 5, 8, LimitKind::Empty), 5);

    assert_eq!(available_to_write(0, 0, 8, LimitKind::Empty), 8);
    assert_eq!(available_to_write(3, 3, 8, LimitKind::Full), 0);
    assert_eq!(available_to_write(5, 2, 8, LimitKind::Empty), 5);
    assert_eq!(available_to_write(2, 5, 8, LimitKind::Empty), 3);

    assert_eq!(next_index(0, 8), 1);
    assert_eq!(next_index(6, 8), 7);
    assert_eq!(next_index(7, 8), 0);
    assert_eq!(next_index(0, 1), 0);
}
