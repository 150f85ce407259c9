use buildingblocks::ring_buffer::RingBuffer;

#[test]
fn test_empty() {
    let mut rb: RingBuffer<u8, 32> = RingBuffer::new();
    assert_eq!(rb.capacity(), 32);
    assert_eq!(rb.len(), 0);
    assert_eq!(rb.pop(), None);
    assert_eq!(rb.pop(), None);
    assert_eq!(rb.pop(), None);
}

#[test]
fn test_push_pop() {
    let mut rb: RingBuffer<u8, 4> = RingBuffer::new();
    assert_eq!(rb.capacity(), 4);
    assert_eq!(rb.len(), 0);

    assert_eq!(rb.push(b'1'), true);
    assert_eq!(rb.capacity(), 4);
    assert_eq!(rb.len(), 1);

    assert_eq!(rb.push(b'2'), true);
    assert_eq!(rb.capacity(), 4);
    assert_eq!(rb.len(), 2);

    assert_eq!(rb.push(b'3'), true);
    assert_eq!(rb.capacity(), 4);
    assert_eq!(rb.len(), 3);

    assert_eq!(rb.push(b'4'), true);
    assert_eq!(rb.capacity(), 4);
    assert_eq!(rb.len(), 4);

    // now the buffer is full

    assert_eq!(rb.push(b'5'), false);
    assert_eq!(rb.capacity(), 4);
    assert_eq!(rb.len(), 4);

    // start popping

    assert_eq!(rb.pop(), Some(b'1'));
    assert_eq!(rb.capacity(), 4);
    assert_eq!(rb.len(), 3);

    assert_eq!(rb.pop(), Some(b'2'));
    assert_eq!(rb.capacity(), 4);
    assert_eq!(rb.len(), 2);

    assert_eq!(rb.pop(), Some(b'3'));
    assert_eq!(rb.capacity(), 4);
    assert_eq!(rb.len(), 1);

    assert_eq!(rb.pop(), Some(b'4'));
    assert_eq!(rb.capacity(), 4);
    assert_eq!(rb.len(), 0);

    assert_eq!(rb.pop(), None);
    assert_eq!(rb.pop(), None);
    assert_eq!(rb.pop(), None);
}

#[test]
fn test_force_push_pop() {
    let mut rb: RingBuffer<u8, 4> = RingBuffer::new();
    assert_eq!(rb.capacity(), 4);
    assert_eq!(rb.len(), 0);

    rb.force_push(b'1');
    assert_eq!(rb.capacity(), 4);
    assert_eq!(rb.len(), 1);

    rb.force_push(b'2');
    assert_eq!(rb.capacity(), 4);
    assert_eq!(rb.len(), 2);

    rb.force_push(b'3');
    assert_eq!(rb.capacity(), 4);
    assert_eq!(rb.len(), 3);

    rb.force_push(b'4');
    assert_eq!(rb.capacity(), 4);
    assert_eq!(rb.len(), 4);

    // now the buffer is full

    rb.force_push(b'5');
    assert_eq!(rb.capacity(), 4);
    assert_eq!(rb.len(), 4);

    // start popping

    assert_eq!(rb.pop(), Some(b'2'));
    assert_eq!(rb.capacity(), 4);
    assert_eq!(rb.len(), 3);

    assert_eq!(rb.pop(), Some(b'3'));
    assert_eq!(rb.capacity(), 4);
    assert_eq!(rb.len(), 2);

    assert_eq!(rb.pop(), Some(b'4'));
    assert_eq!(rb.capacity(), 4);
    assert_eq!(rb.len(), 1);

    assert_eq!(rb.pop(), Some(b'5'));
    assert_eq!(rb.capacity(), 4);
    assert_eq!(rb.len(), 0);

    assert_eq!(rb.pop(), None);
    assert_eq!(rb.pop(), None);
    assert_eq!(rb.pop(), None);
}

#[test]
fn test_iterator() {
    let mut rb: RingBuffer<u8, 4> = RingBuffer::new();
    assert_eq!(rb.capacity(), 4);
    assert_eq!(rb.len(), 0);

    rb.force_push(b'1');
    assert_eq!(rb.capacity(), 4);
    assert_eq!(rb.len(), 1);

    rb.force_push(b'2');
    assert_eq!(rb.capacity(), 4);
    assert_eq!(rb.len(), 2);

    rb.force_push(b'3');
    assert_eq!(rb.capacity(), 4);
    assert_eq!(rb.len(), 3);

    rb.force_push(b'4');
    assert_eq!(rb.capacity(), 4);
    assert_eq!(rb.len(), 4);

    {
        let mut iter = rb.iter();
        assert_eq!(iter.next(), Some(b'1'));
        assert_eq!(iter.next(), Some(b'2'));
        assert_eq!(iter.next(), Some(b'3'));
        assert_eq!(iter.next(), Some(b'4'));
        assert_eq!(iter.next(), None);
        assert_eq!(iter.next(), None);
        assert_eq!(iter.next(), None);
    }

    assert_eq!(rb.pop(), Some(b'1'));

    {
        let mut iter = rb.iter();
        assert_eq!(iter.next(), Some(b'2'));
        assert_eq!(iter.next(), Some(b'3'));
        assert_eq!(iter.next(), Some(b'4'));
        assert_eq!(iter.next(), None);
        assert_eq!(iter.next(), None);
        assert_eq!(iter.next(), None);
    }

    assert_eq!(rb.push(b'5'), true);

    {
        let mut iter = rb.iter();
        assert_eq!(iter.next(), Some(b'2'));
        assert_eq!(iter.next(), Some(b'3'));
        assert_eq!(iter.next(), Some(b'4'));
        assert_eq!(iter.next(), Some(b'5'));
        assert_eq!(iter.next(), None);
        assert_eq!(iter.next(), None);
        assert_eq!(iter.next(), None);
    }

    assert_eq!(rb.pop(), Some(b'2'));
    assert_eq!(rb.push(b'6'), true);

    {
        let mut iter = rb.iter();
        assert_eq!(iter.next(), Some(b'3'));
        assert_eq!(iter.next(), Some(b'4'));
        assert_eq!(iter.next(), Some(b'5'));
        assert_eq!(iter.next(), Some(b'6'));
        assert_eq!(iter.next(), None);
        assert_eq!(iter.next(), None);
        assert_eq!(iter.next(), None);
    }

    assert_eq!(rb.pop(), Some(b'3'));
    assert_eq!(rb.pop(), Some(b'4'));
    assert_eq!(rb.push(b'7'), true);
    assert_eq!(rb.push(b'8'), true);

    {
        let mut iter = rb.iter();
        assert_eq!(iter.next(), Some(b'5'));
        assert_eq!(iter.next(), Some(b'6'));
        assert_eq!(iter.next(), Some(b'7'));
        assert_eq!(iter.next(), Some(b'8'));
        assert_eq!(iter.next(), None);
        assert_eq!(iter.next(), None);
        assert_eq!(iter.next(), None);
    }
}
