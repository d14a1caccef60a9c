use bytes::Bytes;
use h1_dispatch::error::PayloadError;
use h1_dispatch::h1::message::PayloadStatus;
use h1_dispatch::h1::payload::{PayloadChannel, PayloadItem, MAX_PAYLOAD_SIZE};

#[test]
fn pieces_come_out_in_the_order_they_went_in() {
    let mut channel = PayloadChannel::new(false);
    channel.feed_data(Bytes::from_static(b"line1"));
    channel.feed_data(Bytes::from_static(b"line2"));
    channel.feed_data(Bytes::from_static(b""));
    channel.feed_data(Bytes::from_static(b"line3"));
    assert_eq!(channel.len(), 15);
    assert_eq!(channel.readany(), PayloadItem::Data(Bytes::from_static(b"line1")));
    assert_eq!(channel.len(), 10);
    assert_eq!(channel.readany(), PayloadItem::Data(Bytes::from_static(b"line2")));
    assert_eq!(channel.readany(), PayloadItem::Data(Bytes::from_static(b"")));
    assert_eq!(channel.readany(), PayloadItem::Data(Bytes::from_static(b"line3")));
    assert_eq!(channel.len(), 0);
    assert_eq!(channel.readany(), PayloadItem::Pending);
}

#[test]
fn empty_channel_is_pending_until_the_end_is_fed() {
    let mut channel = PayloadChannel::new(false);
    assert!(!channel.is_eof());
    assert_eq!(channel.readany(), PayloadItem::Pending);
    channel.feed_eof();
    assert!(channel.is_eof());
    assert_eq!(channel.readany(), PayloadItem::Eof);
    assert_eq!(channel.readany(), PayloadItem::Eof);

    let mut channel = PayloadChannel::new(true);
    assert_eq!(channel.readany(), PayloadItem::Eof);
}

#[test]
fn what_waits_is_read_before_the_end_or_the_failure() {
    let mut channel = PayloadChannel::new(false);
    channel.feed_data(Bytes::from_static(b"data"));
    channel.set_error(PayloadError::Incomplete);
    channel.feed_eof();
    assert_eq!(channel.readany(), PayloadItem::Data(Bytes::from_static(b"data")));
    assert_eq!(channel.readany(), PayloadItem::Failed(PayloadError::Incomplete));
    // the failure is met once
    assert_eq!(channel.readany(), PayloadItem::Eof);

    let mut channel = PayloadChannel::new(false);
    channel.set_error(PayloadError::EncodingCorrupted);
    assert_eq!(channel.readany(), PayloadItem::Failed(PayloadError::EncodingCorrupted));
    assert_eq!(channel.readany(), PayloadItem::Pending);
}

#[test]
fn reader_has_enough_once_the_limit_is_reached() {
    let mut channel = PayloadChannel::new(false);
    assert_eq!(channel.need_read(), PayloadStatus::Read);
    channel.feed_data(Bytes::from(vec![0u8; MAX_PAYLOAD_SIZE - 1]));
    assert_eq!(channel.need_read(), PayloadStatus::Read);
    channel.feed_data(Bytes::from_static(b"x"));
    assert_eq!(channel.len(), MAX_PAYLOAD_SIZE);
    assert_eq!(channel.need_read(), PayloadStatus::Pause);
    channel.feed_data(Bytes::from_static(b"y"));
    assert_eq!(channel.need_read(), PayloadStatus::Pause);

    // taking the big piece makes room again
    assert!(matches!(channel.readany(), PayloadItem::Data(_)));
    assert_eq!(channel.len(), 2);
    assert_eq!(channel.need_read(), PayloadStatus::Read);
}

#[test]
fn asking_an_empty_channel_tells_that_the_reader_wants_more() {
    let mut channel = PayloadChannel::new(false);
    channel.feed_data(Bytes::from(vec![0u8; MAX_PAYLOAD_SIZE]));
    channel.feed_data(Bytes::from(vec![0u8; MAX_PAYLOAD_SIZE]));
    assert!(matches!(channel.readany(), PayloadItem::Data(_)));
    assert_eq!(channel.need_read(), PayloadStatus::Pause);
    assert!(matches!(channel.readany(), PayloadItem::Data(_)));
    assert_eq!(channel.need_read(), PayloadStatus::Read);
    assert_eq!(channel.readany(), PayloadItem::Pending);
    assert_eq!(channel.need_read(), PayloadStatus::Read);
}

#[test]
fn room_is_counted_in_bytes() {
    let mut channel = PayloadChannel::new(false);
    let piece = Bytes::from_static(b"12345");
    assert!(channel.has_room_for(&piece));
    channel.feed_data(piece);
    assert_eq!(channel.len(), 5);
}
