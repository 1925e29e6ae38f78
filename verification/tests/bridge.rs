use kernel::task::shell::add_char;
use kernel::task::shell::Bridge;
use kernel::task::shell::CharStream;
use kernel::task::shell::Delivery;
use kernel::task::shell::CAPACITY;
use kernel::task::Poll;
use kernel::task::TaskId;

fn letter(i: usize) -> char {
    char::from_u32('a' as u32 + (i % 26) as u32).unwrap()
}

#[test]
fn new_bridge_has_no_queue() {
    let bridge = Bridge::new();
    assert!(!bridge.is_initialized());
    assert_eq!(bridge.len(), 0);
    assert_eq!(bridge.dropped(), 0);
    assert_eq!(bridge.waker(), None);
}

#[test]
fn event_offered_before_a_consumer_exists_is_lost() {
    let mut bridge = Bridge::new();
    assert_eq!(add_char(&mut bridge, 'x'), Delivery::Uninitialized);
    assert_eq!(bridge.len(), 0);
    assert_eq!(bridge.dropped(), 0);
    assert_eq!(bridge.pop(), None);
    CharStream::new(&mut bridge);
    assert!(bridge.is_initialized());
    assert_eq!(bridge.pop(), None);
}

#[test]
fn capacity_is_one_hundred() {
    assert_eq!(CAPACITY, 100);
}

#[test]
fn one_hundred_and_one_events_keep_the_first_hundred_and_count_one_drop() {
    let mut bridge = Bridge::new();
    CharStream::new(&mut bridge);
    for i in 0..100 {
        assert_eq!(add_char(&mut bridge, letter(i)), Delivery::Queued { wake: None });
        assert_eq!(bridge.len(), i + 1);
    }
    assert_eq!(add_char(&mut bridge, '!'), Delivery::Dropped);
    assert_eq!(bridge.len(), 100);
    assert_eq!(bridge.dropped(), 1);
    for i in 0..100 {
        assert_eq!(bridge.pop(), Some(letter(i)));
    }
    assert_eq!(bridge.pop(), None);
    assert_eq!(bridge.dropped(), 1);
}

#[test]
fn every_event_beyond_capacity_is_counted() {
    let mut bridge = Bridge::new();
    CharStream::new(&mut bridge);
    for i in 0..250 {
        add_char(&mut bridge, letter(i));
    }
    assert_eq!(bridge.len(), 100);
    assert_eq!(bridge.dropped(), 150);
    assert_eq!(bridge.pop(), Some('a'));
    assert_eq!(add_char(&mut bridge, 'z'), Delivery::Queued { wake: None });
    assert_eq!(bridge.dropped(), 150);
}

#[test]
fn drop_leaves_the_registration_in_place() {
    let mut bridge = Bridge::new();
    CharStream::new(&mut bridge);
    for i in 0..100 {
        add_char(&mut bridge, letter(i));
    }
    bridge.register(TaskId(4));
    assert_eq!(add_char(&mut bridge, '!'), Delivery::Dropped);
    assert_eq!(bridge.waker(), Some(TaskId(4)));
}

#[test]
fn events_come_out_in_the_order_they_went_in() {
    let mut bridge = Bridge::new();
    let mut stream = CharStream::new(&mut bridge);
    for c in ['k', 'e', 'r', 'n'] {
        add_char(&mut bridge, c);
    }
    for c in ['k', 'e', 'r', 'n'] {
        assert_eq!(stream.poll_next(&mut bridge, TaskId(0)), Poll::Ready(Some(c)));
    }
    assert_eq!(stream.poll_next(&mut bridge, TaskId(0)), Poll::Pending);
}

#[test]
fn registered_consumer_is_woken_and_its_next_poll_is_ready() {
    let mut bridge = Bridge::new();
    let mut stream = CharStream::new(&mut bridge);
    assert_eq!(stream.poll_next(&mut bridge, TaskId(7)), Poll::Pending);
    assert_eq!(bridge.waker(), Some(TaskId(7)));
    assert_eq!(add_char(&mut bridge, 'q'), Delivery::Queued { wake: Some(TaskId(7)) });
    assert_eq!(bridge.waker(), None);
    assert_eq!(stream.poll_next(&mut bridge, TaskId(7)), Poll::Ready(Some('q')));
    assert_eq!(bridge.waker(), None);
}

#[test]
fn wake_is_scheduled_once_per_registration() {
    let mut bridge = Bridge::new();
    let mut stream = CharStream::new(&mut bridge);
    assert_eq!(stream.poll_next(&mut bridge, TaskId(7)), Poll::Pending);
    assert_eq!(add_char(&mut bridge, 'a'), Delivery::Queued { wake: Some(TaskId(7)) });
    assert_eq!(add_char(&mut bridge, 'b'), Delivery::Queued { wake: None });
}

#[test]
fn event_between_empty_check_and_registration_is_not_lost() {
    let mut bridge = Bridge::new();
    CharStream::new(&mut bridge);
    assert_eq!(bridge.pop(), None);
    assert_eq!(add_char(&mut bridge, 'r'), Delivery::Queued { wake: None });
    bridge.register(TaskId(1));
    assert_eq!(bridge.pop(), Some('r'));
    assert_eq!(bridge.take(), Some(TaskId(1)));
    assert_eq!(bridge.waker(), None);
}

#[test]
fn second_registration_replaces_the_first() {
    let mut bridge = Bridge::new();
    CharStream::new(&mut bridge);
    bridge.register(TaskId(1));
    bridge.register(TaskId(2));
    assert_eq!(add_char(&mut bridge, 'x'), Delivery::Queued { wake: Some(TaskId(2)) });
}

#[test]
fn take_withdraws_the_registration() {
    let mut bridge = Bridge::new();
    CharStream::new(&mut bridge);
    assert_eq!(bridge.take(), None);
    bridge.register(TaskId(9));
    assert_eq!(bridge.take(), Some(TaskId(9)));
    assert_eq!(add_char(&mut bridge, 'x'), Delivery::Queued { wake: None });
}
