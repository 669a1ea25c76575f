use fm_voice::channel::{ParameterChannel, ParameterUpdate, DEFAULT_CAPACITY, MAX_CAPACITY};

fn numbered(i: u32) -> ParameterUpdate {
    match i % 4 {
        0 => ParameterUpdate::CarrierFrequency(i as i32),
        1 => ParameterUpdate::ModulatorFrequency(-(i as i32)),
        2 => ParameterUpdate::Attack(i),
        _ => ParameterUpdate::Release(i),
    }
}

#[test]
fn channel_needs_room_for_one_update() {
    assert!(ParameterChannel::new(0).is_none());
    assert!(ParameterChannel::new(1).is_some());
}

#[test]
fn channel_has_a_largest_capacity() {
    assert_eq!(MAX_CAPACITY, usize::MAX / 32);
    assert!(ParameterChannel::new(1 << 20).is_some());
    assert!(ParameterChannel::new(MAX_CAPACITY + 1).is_none());
    assert!(ParameterChannel::new(usize::MAX).is_none());
}

#[test]
fn new_channel_is_empty() {
    let mut channel = ParameterChannel::new(DEFAULT_CAPACITY).unwrap();
    assert_eq!(channel.capacity(), 16);
    assert_eq!(channel.try_pop(), None);
    assert_eq!(channel.try_pop(), None);
}

#[test]
fn filled_channel_drains_in_the_order_pushed() {
    let mut channel = ParameterChannel::new(DEFAULT_CAPACITY).unwrap();
    for i in 0..16 {
        assert!(channel.try_push(numbered(i)));
    }
    for i in 0..16 {
        assert_eq!(channel.try_pop(), Some(numbered(i)));
    }
    assert_eq!(channel.try_pop(), None);
}

#[test]
fn one_push_too_many_drops_the_newest() {
    let mut channel = ParameterChannel::new(DEFAULT_CAPACITY).unwrap();
    for i in 0..16 {
        assert!(channel.try_push(numbered(i)));
    }
    assert!(!channel.try_push(numbered(16)));
    assert!(!channel.try_push(numbered(17)));
    for i in 0..16 {
        assert_eq!(channel.try_pop(), Some(numbered(i)));
    }
    assert_eq!(channel.try_pop(), None);
}

#[test]
fn room_comes_back_as_updates_leave() {
    let mut channel = ParameterChannel::new(2).unwrap();
    assert!(channel.try_push(numbered(1)));
    assert!(channel.try_push(numbered(2)));
    assert!(!channel.try_push(numbered(3)));
    assert_eq!(channel.try_pop(), Some(numbered(1)));
    assert!(channel.try_push(numbered(4)));
    assert!(!channel.try_push(numbered(5)));
    assert_eq!(channel.try_pop(), Some(numbered(2)));
    assert_eq!(channel.try_pop(), Some(numbered(4)));
    assert_eq!(channel.try_pop(), None);
    assert_eq!(channel.capacity(), 2);
}

#[test]
fn channel_goes_round_its_buffer_many_times() {
    let mut channel = ParameterChannel::new(3).unwrap();
    let mut next_in = 0;
    let mut next_out = 0;
    for round in 0..100 {
        for _ in 0..(round % 3 + 1) {
            assert!(channel.try_push(numbered(next_in)));
            next_in += 1;
        }
        for _ in 0..(round % 3 + 1) {
            assert_eq!(channel.try_pop(), Some(numbered(next_out)));
            next_out += 1;
        }
    }
    assert_eq!(channel.try_pop(), None);
}

#[test]
fn updates_keep_their_payload() {
    let mut channel = ParameterChannel::new(4).unwrap();
    channel.try_push(ParameterUpdate::CarrierFrequency(i32::MIN));
    channel.try_push(ParameterUpdate::ModulatorFrequency(i32::MAX));
    channel.try_push(ParameterUpdate::Attack(u32::MAX));
    channel.try_push(ParameterUpdate::Release(0));
    assert_eq!(channel.try_pop(), Some(ParameterUpdate::CarrierFrequency(i32::MIN)));
    assert_eq!(channel.try_pop(), Some(ParameterUpdate::ModulatorFrequency(i32::MAX)));
    assert_eq!(channel.try_pop(), Some(ParameterUpdate::Attack(u32::MAX)));
    assert_eq!(channel.try_pop(), Some(ParameterUpdate::Release(0)));
}

#[test]
fn split_ends_share_one_queue() {
    let channel = ParameterChannel::new(2).unwrap();
    let (mut sender, mut receiver) = channel.split();
    assert_eq!(sender.capacity(), 2);
    assert_eq!(receiver.capacity(), 2);
    assert_eq!(receiver.try_pop(), None);
    assert!(sender.try_push(numbered(1)));
    assert!(sender.try_push(numbered(2)));
    assert!(!sender.try_push(numbered(3)));
    assert_eq!(receiver.try_pop(), Some(numbered(1)));
    assert!(sender.try_push(numbered(4)));
    assert_eq!(receiver.try_pop(), Some(numbered(2)));
    assert_eq!(receiver.try_pop(), Some(numbered(4)));
    assert_eq!(receiver.try_pop(), None);
}

#[test]
fn split_keeps_what_was_waiting() {
    let mut channel = ParameterChannel::new(3).unwrap();
    assert!(channel.try_push(numbered(7)));
    assert!(channel.try_push(numbered(8)));
    let (mut sender, mut receiver) = channel.split();
    assert!(sender.try_push(numbered(9)));
    assert!(!sender.try_push(numbered(10)));
    assert_eq!(receiver.try_pop(), Some(numbered(7)));
    assert_eq!(receiver.try_pop(), Some(numbered(8)));
    assert_eq!(receiver.try_pop(), Some(numbered(9)));
    assert_eq!(receiver.try_pop(), None);
}

#[test]
fn sender_outlives_the_receiver() {
    let channel = ParameterChannel::new(1).unwrap();
    let (mut sender, receiver) = channel.split();
    drop(receiver);
    assert!(sender.try_push(numbered(1)));
    assert!(!sender.try_push(numbered(2)));
}

#[test]
fn shared_ends_keep_their_capacity() {
    let channel = ParameterChannel::new(3).unwrap();
    let (mut sender, mut receiver) = channel.split();
    for i in 0..5 {
        sender.try_push(numbered(i));
        assert_eq!(sender.capacity(), 3);
    }
    for _ in 0..5 {
        receiver.try_pop();
        assert_eq!(receiver.capacity(), 3);
    }
}
