use gpsd_json::error::GpsdJsonError;
use gpsd_json::protocol::{Decoded, FrameDecoder, Parsed};

#[test]
fn whole_frame_in_one_feed() {
    let mut d = FrameDecoder::new();
    let (taken, frame) = d.feed(b"{\"class\":\"TPV\"}\n");
    assert_eq!(taken, 16);
    assert_eq!(frame.unwrap(), b"{\"class\":\"TPV\"}\n".to_vec());
    assert_eq!(d.buffered_len(), 0);
}

#[test]
fn feed_stops_after_first_newline() {
    let mut d = FrameDecoder::new();
    let (taken, frame) = d.feed(b"ab\ncd\n");
    assert_eq!(taken, 3);
    assert_eq!(frame.unwrap(), b"ab\n".to_vec());
    let (taken, frame) = d.feed(b"cd\n");
    assert_eq!(taken, 3);
    assert_eq!(frame.unwrap(), b"cd\n".to_vec());
}

#[test]
fn split_at_every_index_gives_same_frame() {
    let message: &[u8] = b"{\"class\":\"VERSION\",\"proto_major\":3,\"proto_minor\":15}\n";
    let mut whole = FrameDecoder::new();
    let (_, expected) = whole.feed(message);
    let expected = expected.unwrap();
    for k in 0..message.len() {
        let mut d = FrameDecoder::new();
        let (taken, frame) = d.feed(&message[..k]);
        assert_eq!(taken, k);
        assert!(frame.is_none());
        let (taken, frame) = d.feed(&message[k..]);
        assert_eq!(taken, message.len() - k);
        assert_eq!(frame.unwrap(), expected);
    }
}

#[test]
fn empty_feed_keeps_buffer() {
    let mut d = FrameDecoder::new();
    d.feed(b"{\"class\":");
    assert_eq!(d.buffered_len(), 9);
    let (taken, frame) = d.feed(b"");
    assert_eq!(taken, 0);
    assert!(frame.is_none());
    assert_eq!(d.buffered_len(), 9);
    let (_, frame) = d.feed(b"\"WATCH\"}\n");
    assert_eq!(frame.unwrap(), b"{\"class\":\"WATCH\"}\n".to_vec());
}

#[test]
fn end_of_stream_drops_trailing_bytes() {
    let mut d = FrameDecoder::new();
    d.feed(b"{\"class\":\"TP");
    let r: Decoded<u32> = d.end_of_stream();
    assert!(matches!(r, Decoded::Ended));
    assert_eq!(d.buffered_len(), 0);
}

#[test]
fn incomplete_frame_is_continued_by_the_next() {
    let mut d = FrameDecoder::new();
    let (_, frame) = d.feed(b"{\"a\":\n1}\n");
    let frame = frame.unwrap();
    let r: Decoded<u32> = d.settle(frame, Parsed::Incomplete);
    assert!(matches!(r, Decoded::NeedMore));
    assert_eq!(d.buffered_len(), 6);
    let (taken, frame) = d.feed(b"1}\n");
    assert_eq!(taken, 3);
    assert_eq!(frame.unwrap(), b"{\"a\":\n1}\n".to_vec());
}

#[test]
fn parsed_message_and_invalid_frame() {
    let mut d = FrameDecoder::new();
    let (_, frame) = d.feed(b"x\n");
    let r = d.settle(frame.unwrap(), Parsed::Message(7u32));
    assert!(matches!(r, Decoded::Message(7)));
    let (_, frame) = d.feed(b"}\n");
    let r: Decoded<u32> = d.settle(frame.unwrap(), Parsed::Invalid("bad".to_string()));
    match r {
        Decoded::Failed(GpsdJsonError::SerdeError(e)) => assert_eq!(e, "bad"),
        other => panic!("unexpected {:?}", other),
    }
    assert_eq!(d.buffered_len(), 0);
}

#[test]
fn decoded_as_reply() {
    assert!(matches!(Decoded::Message(1u8).into_reply(), Some(Ok(Some(1)))));
    assert!(matches!(Decoded::<u8>::Ended.into_reply(), Some(Ok(None))));
    assert!(Decoded::<u8>::NeedMore.into_reply().is_none());
    assert!(matches!(
        Decoded::<u8>::Failed(GpsdJsonError::SerdeError("e".to_string())).into_reply(),
        Some(Err(GpsdJsonError::SerdeError(_)))
    ));
}
