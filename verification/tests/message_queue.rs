use std::cmp::Ordering;

use udp_server::address::SocketAddress;
use udp_server::input_messages::game_event::Event;
use udp_server::input_messages::{GameEvent, Move, PlayerLeft};
use udp_server::message_queue::{MessageQueue, QueuedMessage};

fn addr(port: u16) -> SocketAddress {
    SocketAddress::V4 { ip: 0x0a00_0001, port }
}

fn moved(dx: f64, dy: f64) -> GameEvent {
    GameEvent { event: Some(Event::Move(Move { distance_x: dx.to_bits(), distance_y: dy.to_bits() })) }
}

fn leave(id: &str) -> GameEvent {
    GameEvent { event: Some(Event::Left(PlayerLeft { id: id.to_string() })) }
}

fn orders(q: &MessageQueue) -> Vec<i32> {
    q.messages_vec().iter().map(|m| m.order).collect()
}

#[test]
fn empty_queue_latest_order_is_zero() {
    let q = MessageQueue::new();
    assert_eq!(q.peek_latest_order(), 0);
    assert!(q.is_empty());
    assert!(q.last().is_none());
}

#[test]
fn push_next_numbers_in_arrival_order() {
    let mut q = MessageQueue::new();
    assert!(q.push_next(moved(1.0, 2.0), addr(1)));
    assert!(q.push_next(moved(1.0, 2.0), addr(2)));
    assert!(q.push_next(leave("a"), addr(1)));
    assert_eq!(orders(&q), vec![1, 2, 3]);
    assert_eq!(q.peek_latest_order(), 3);
    assert_eq!(q.len(), 3);
}

#[test]
fn repeated_event_from_same_address_is_refused() {
    let mut q = MessageQueue::new();
    assert!(q.push_next(moved(1.0, 2.0), addr(1)));
    assert!(!q.push_next(moved(1.0, 2.0), addr(1)));
    assert_eq!(orders(&q), vec![1]);
    // 0.0 and -0.0 are equal doubles.
    assert!(q.push_next(moved(0.0, 1.0), addr(1)));
    assert!(!q.push_next(moved(-0.0, 1.0), addr(1)));
    // NaN equals nothing, not even itself.
    assert!(q.push_next(moved(f64::NAN, 1.0), addr(1)));
    assert!(q.push_next(moved(f64::NAN, 1.0), addr(1)));
    assert_eq!(orders(&q), vec![1, 2, 3, 4]);
}

#[test]
fn pop_first_is_first_in_first_out() {
    let mut q = MessageQueue::new();
    q.push_next(leave("a"), addr(1));
    q.push_next(leave("b"), addr(2));
    let first = q.pop_first().unwrap();
    assert_eq!(first.order, 1);
    assert_eq!(first.data, leave("a"));
    assert_eq!(first.addr, addr(1));
    let second = q.pop_first().unwrap();
    assert_eq!(second.order, 2);
    assert!(q.pop_first().is_none());
}

#[test]
fn flush_takes_everything_and_numbering_restarts() {
    let mut q = MessageQueue::new();
    q.push_next(leave("a"), addr(1));
    q.push_next(leave("b"), addr(2));
    let taken = q.flush();
    assert_eq!(orders(&taken), vec![1, 2]);
    assert!(q.is_empty());
    assert!(q.push_next(leave("c"), addr(3)));
    assert_eq!(orders(&q), vec![1]);
    q.clear();
    assert!(q.is_empty());
}

#[test]
fn insert_places_by_number_and_refuses_clashes() {
    let mut q = MessageQueue::new();
    assert!(q.insert(QueuedMessage { order: 5, data: leave("a"), addr: addr(1) }));
    assert!(q.insert(QueuedMessage { order: 2, data: leave("b"), addr: addr(1) }));
    assert!(q.insert(QueuedMessage { order: 9, data: leave("c"), addr: addr(1) }));
    assert_eq!(orders(&q), vec![2, 5, 9]);
    // Same number, other message.
    assert!(!q.insert(QueuedMessage { order: 5, data: leave("d"), addr: addr(2) }));
    // Same message, other number.
    assert!(!q.insert(QueuedMessage { order: 7, data: leave("c"), addr: addr(1) }));
    assert_eq!(orders(&q), vec![2, 5, 9]);
    assert_eq!(q.last().map(|m| m.order), Some(9));
}

#[test]
fn queued_message_comparisons() {
    let a = QueuedMessage { order: 1, data: leave("a"), addr: addr(1) };
    let b = QueuedMessage { order: 2, data: leave("b"), addr: addr(1) };
    let a2 = QueuedMessage { order: 7, data: leave("a"), addr: addr(1) };
    assert!(a.lt(&b) && a.le(&b) && !a.gt(&b) && !a.ge(&b));
    assert!(b.gt(&a) && b.ge(&a));
    assert_eq!(a.partial_cmp(&b), Some(Ordering::Less));
    assert_eq!(b.partial_cmp(&a), Some(Ordering::Greater));
    assert_eq!(a.cmp(&b), Ordering::Less);
    assert!(a.eq(&a2));
    assert!(!a.eq(&b));
    assert_eq!(a.cmp(&a2), Ordering::Equal);
    assert_eq!(a.partial_cmp(&a2), Some(Ordering::Less));
}
