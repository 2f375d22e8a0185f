use openpacketloss_server::{ChannelAdmission, ChannelCounter, MAX_DATA_CHANNELS_PER_PC};
use openpacketloss_server::{MessageReply, PacketCounter, PingMessage, MAX_MESSAGE_SIZE};

fn ping(seq: usize) -> PingMessage {
    PingMessage { seq, timestamp: 1000 + seq as u64, s_rx: 0, data: Some("x".to_string()) }
}

#[test]
fn ten_channels_and_no_more() {
    let mut counter = ChannelCounter::new();
    assert_eq!(counter.served(), 0);
    for n in 1..=MAX_DATA_CHANNELS_PER_PC {
        assert_eq!(counter.opened(), ChannelAdmission::Accepted { total: n });
        assert_eq!(counter.served(), n);
    }
    assert_eq!(counter.served(), 10);
    assert_eq!(counter.opened(), ChannelAdmission::Refused);
    assert_eq!(counter.opened(), ChannelAdmission::Refused);
    assert_eq!(counter.served(), 10);
}

#[test]
fn channel_that_closes_makes_room() {
    let mut counter = ChannelCounter::new();
    for _ in 0..12 {
        counter.opened();
    }
    counter.closed();
    assert_eq!(counter.served(), 9);
    assert_eq!(counter.opened(), ChannelAdmission::Accepted { total: 10 });
    assert_eq!(counter.opened(), ChannelAdmission::Refused);
    for n in (0..10).rev() {
        counter.closed();
        assert_eq!(counter.served(), n);
    }
    assert_eq!(counter.opened(), ChannelAdmission::Accepted { total: 1 });
}

#[test]
fn packets_come_back_with_their_count() {
    let mut counter = PacketCounter::new();
    for (n, seq) in [5, 3, 9].into_iter().enumerate() {
        let MessageReply::Ping(back) = counter.on_message(b"{}", Some(ping(seq))) else {
            panic!("no packet");
        };
        assert_eq!(back.seq, seq);
        assert_eq!(back.timestamp, 1000 + seq as u64);
        assert_eq!(back.s_rx, n + 1);
        assert_eq!(back.data.as_deref(), Some("x"));
    }
    assert_eq!(counter.received, 3);
}

#[test]
fn other_messages_come_back_as_they_are_and_are_not_counted() {
    let mut counter = PacketCounter::new();
    let MessageReply::Raw(bytes) = counter.on_message(&[1, 2, 255], None) else {
        panic!("no echo");
    };
    assert_eq!(bytes, [1, 2, 255]);
    assert_eq!(counter.received, 0);
    assert!(matches!(counter.on_message(&[], None), MessageReply::Raw(b) if b.is_empty()));
}

#[test]
fn long_messages_are_dropped() {
    let mut counter = PacketCounter::new();
    let longest = vec![0u8; MAX_MESSAGE_SIZE];
    assert_eq!(MAX_MESSAGE_SIZE, 65536);
    assert!(PacketCounter::fits(longest.len()));
    assert!(matches!(counter.on_message(&longest, None), MessageReply::Raw(b) if b == longest));
    let too_long = vec![0u8; MAX_MESSAGE_SIZE + 1];
    assert!(!PacketCounter::fits(too_long.len()));
    assert!(matches!(counter.on_message(&too_long, None), MessageReply::Dropped));
    assert!(matches!(counter.on_message(&too_long, Some(ping(1))), MessageReply::Dropped));
    assert_eq!(counter.received, 0);
}

#[test]
fn full_counter_still_echoes() {
    let mut counter = PacketCounter { received: usize::MAX };
    assert!(matches!(counter.on_message(&[7], None), MessageReply::Raw(b) if b == [7]));
    let too_long = vec![0u8; MAX_MESSAGE_SIZE + 1];
    assert!(matches!(counter.on_message(&too_long, Some(ping(1))), MessageReply::Dropped));
    assert_eq!(counter.received, usize::MAX);
}
