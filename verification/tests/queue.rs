use gdcef::queue::drain_queue;
use std::collections::VecDeque;

#[test]
fn drain_queue_returns_items_in_order_and_empties() {
    let mut q: VecDeque<u32> = VecDeque::new();
    q.push_back(3);
    q.push_back(1);
    q.push_back(2);
    assert_eq!(drain_queue(&mut q), vec![3, 1, 2]);
    assert!(q.is_empty());
    assert!(drain_queue(&mut q).is_empty());
}
