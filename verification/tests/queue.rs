use padme_core::collections::Queue;

#[test]
fn it_push_a_new_element() {
    let mut q = Queue::new([0u8; 16]);

    q.push(3);
    q.push(4);
    q.push(5);

    assert_eq!(q.data()[0], 3);
    assert_eq!(q.data()[1], 4);
    assert_eq!(q.data()[2], 5);
}

#[test]
fn it_pop_elements() {
    let mut q = Queue::new([0u8; 16]);

    q.push(3);
    q.push(4);
    q.push(5);

    assert_eq!(q.pop(), 3);
    assert_eq!(q.pop(), 4);
    assert_eq!(q.pop(), 5);
}

#[test]
fn it_checks_size() {
    let mut q = Queue::new([0u8; 4]);

    assert_eq!(q.size(), 0);
    assert!(q.is_empty());
    q.push(3);
    assert_eq!(q.size(), 1);
    q.push(4);
    assert_eq!(q.size(), 2);
    q.push(5);
    assert_eq!(q.size(), 3);
    assert!(q.is_full());
    q.pop();
    assert_eq!(q.size(), 2);
    q.pop();
    assert_eq!(q.size(), 1);
    q.pop();
    assert_eq!(q.size(), 0);
}

#[test]
fn queue_drops_oldest_when_full() {
    let mut q = Queue::new([0u8; 4]);
    q.push(1);
    q.push(2);
    q.push(3);
    assert!(q.is_full());
    q.push(4);
    assert_eq!(q.size(), 3);
    assert_eq!(q.pop(), 2);
    assert_eq!(q.pop(), 3);
    assert_eq!(q.pop(), 4);
    assert!(q.is_empty());
}

#[test]
fn queue_clear_empties() {
    let mut q = Queue::new([0u8; 8]);
    q.push(9);
    q.push(8);
    q.clear();
    assert!(q.is_empty());
    assert_eq!(q.size(), 0);
    q.push(7);
    assert_eq!(q.pop(), 7);
}

#[test]
fn queue_of_three_slots_holds_two() {
    let mut q = Queue::new([0u8; 3]);
    q.push(1);
    q.push(2);
    assert!(q.is_full());
    assert_eq!(q.size(), 2);
    q.push(3);
    assert_eq!(q.size(), 2);
    assert_eq!(q.pop(), 2);
    q.push(4);
    q.push(5);
    assert_eq!(q.size(), 2);
    assert_eq!(q.pop(), 4);
    assert_eq!(q.pop(), 5);
    assert!(q.is_empty());
}

#[test]
fn queue_of_255_slots_holds_254() {
    let mut q = Queue::new([0u16; 255]);
    for v in 0..300u16 {
        q.push(v);
    }
    assert_eq!(q.size(), 254);
    assert_eq!(q.pop(), 46);
}
