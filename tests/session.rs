use gpsd_json::client::{
    check_version, close_config, expect_reply, sentence_text, version_reply, CloseExchange,
    CloseStage, GpsdClient, GpsdDataStream, Json, Next, Nmea, Raw, StreamOptions, WatchExchange,
    WatchStage,
};
use gpsd_json::error::{Fault, GpsdJsonError};
use gpsd_json::protocol::v3::response::{Kind, Message, Version};
use gpsd_json::protocol::v3::types::Watch;
use gpsd_json::protocol::v3::{RequestMessage, V3};
use gpsd_json::protocol::{Decoded, FrameDecoder, GpsdJsonRequest, Parsed};

fn version(major: i32, minor: i32) -> Message {
    Message::Version(Version {
        release: "3.25".to_string(),
        rev: "3.25".to_string(),
        proto_major: major,
        proto_minor: minor,
        remote: None,
    })
}

fn confirmation(enable: bool) -> Message {
    let mut w = Watch::empty();
    w.enable = Some(enable);
    w.json = Some(enable);
    Message::Watch(w)
}

fn devices() -> Message {
    Message::opaque("DEVICES", "{\"class\":\"DEVICES\",\"devices\":[]}\n".to_string()).unwrap()
}

#[test]
fn version_gate_accepts_compatible() {
    let v = check_version(3, 15, Ok(Some(version(3, 15)))).unwrap();
    assert_eq!(v.proto_minor, 15);
    let v = check_version(3, 15, Ok(Some(version(3, 20)))).unwrap();
    assert_eq!(v.proto_minor, 20);
}

#[test]
fn version_gate_refuses_incompatible() {
    assert!(matches!(
        check_version(3, 15, Ok(Some(version(3, 14)))),
        Err(GpsdJsonError::UnsupportedProtocolVersion((3, 14)))
    ));
    assert!(matches!(
        check_version(3, 15, Ok(Some(version(4, 15)))),
        Err(GpsdJsonError::UnsupportedProtocolVersion((4, 15)))
    ));
}

#[test]
fn version_gate_needs_a_version_frame() {
    assert!(matches!(
        check_version(3, 15, Ok(None)),
        Err(GpsdJsonError::ProtocolError(Fault::ClosedBeforeVersion))
    ));
    assert!(matches!(
        check_version(3, 15, Ok(Some(confirmation(true)))),
        Err(GpsdJsonError::ProtocolError(Fault::NoVersionMessage))
    ));
    assert!(matches!(
        check_version(3, 15, Err(GpsdJsonError::SerdeError("x".to_string()))),
        Err(GpsdJsonError::ProtocolError(Fault::NoVersionMessage))
    ));
    assert!(matches!(
        check_version(3, 15, Err(GpsdJsonError::IoError("reset".to_string()))),
        Err(GpsdJsonError::IoError(_))
    ));
}

#[test]
fn simple_replies() {
    assert!(matches!(version_reply(Some(version(3, 15))), Ok(v) if v.proto_major == 3));
    assert!(matches!(
        version_reply(None),
        Err(GpsdJsonError::ProtocolError(Fault::ExpectedVersion))
    ));
    assert!(matches!(expect_reply(Kind::Devices, Some(devices())), Ok(Message::Report(Kind::Devices, _))));
    assert!(matches!(
        expect_reply(Kind::Poll, Some(devices())),
        Err(GpsdJsonError::ProtocolError(Fault::ExpectedPoll))
    ));
    assert!(matches!(
        expect_reply(Kind::Device, None),
        Err(GpsdJsonError::ProtocolError(Fault::ExpectedDevice))
    ));
}

#[test]
fn watch_exchange_in_order() {
    let mut ex = WatchExchange::new(Some(true));
    assert!(matches!(ex.step(Some(devices())), Ok(None)));
    match ex.step(Some(confirmation(true))) {
        Ok(Some((w, list))) => {
            assert_eq!(w.enable, Some(true));
            assert!(list.contains("DEVICES"));
        }
        other => panic!("unexpected {:?}", other),
    }
    assert!(matches!(ex.stage(), WatchStage::Done));
}

#[test]
fn watch_exchange_reversed_order_is_refused() {
    let mut ex = WatchExchange::new(Some(true));
    assert!(matches!(
        ex.step(Some(confirmation(true))),
        Err(GpsdJsonError::ProtocolError(Fault::ExpectedDevices))
    ));
    let mut ex = WatchExchange::new(None);
    assert!(matches!(ex.step(Some(devices())), Ok(None)));
    assert!(matches!(
        ex.step(Some(devices())),
        Err(GpsdJsonError::ProtocolError(Fault::ExpectedWatch))
    ));
}

#[test]
fn watch_exchange_device_list_alone_is_refused() {
    let mut ex = WatchExchange::new(None);
    assert!(matches!(ex.step(Some(devices())), Ok(None)));
    assert!(matches!(
        ex.step(None),
        Err(GpsdJsonError::ProtocolError(Fault::ExpectedWatch))
    ));
}

#[test]
fn watch_exchange_checks_enable_flag() {
    let mut ex = WatchExchange::new(Some(true));
    ex.step(Some(devices())).unwrap();
    assert!(matches!(
        ex.step(Some(confirmation(false))),
        Err(GpsdJsonError::ProtocolError(Fault::WatchNotConfirmed))
    ));
}

#[test]
fn close_exchange_discards_reports_and_one_error() {
    let mut ex = CloseExchange::new();
    let tpv = Message::opaque("TPV", "{\"class\":\"TPV\"}\n".to_string()).unwrap();
    assert!(matches!(ex.step(Ok(Some(tpv))), Ok(false)));
    assert!(matches!(ex.step(Err(GpsdJsonError::SerdeError("a".to_string()))), Ok(false)));
    assert_eq!(ex.stage(), CloseStage::DiscardedError);
    assert!(matches!(ex.step(Ok(Some(devices()))), Ok(false)));
    assert!(matches!(ex.step(Ok(Some(confirmation(false)))), Ok(true)));
    assert_eq!(ex.stage(), CloseStage::Closed);
}

#[test]
fn close_exchange_failures() {
    let mut ex = CloseExchange::new();
    ex.step(Err(GpsdJsonError::SerdeError("a".to_string()))).unwrap();
    assert!(matches!(
        ex.step(Err(GpsdJsonError::SerdeError("b".to_string()))),
        Err(GpsdJsonError::SerdeError(_))
    ));
    let mut ex = CloseExchange::new();
    assert!(matches!(
        ex.step(Ok(None)),
        Err(GpsdJsonError::ProtocolError(Fault::EndedWhileClosing))
    ));
    let mut ex = CloseExchange::new();
    assert!(matches!(
        ex.step(Ok(Some(confirmation(true)))),
        Err(GpsdJsonError::ProtocolError(Fault::WatchNotConfirmed))
    ));
    let mut ex = CloseExchange::new();
    assert!(matches!(
        ex.step(Err(GpsdJsonError::IoError("x".to_string()))),
        Err(GpsdJsonError::IoError(_))
    ));
}

#[test]
fn unknown_class_is_kept_as_text() {
    let text = "{\"class\":\"FROB\"}\n".to_string();
    match Message::opaque("FROB", text.clone()) {
        Some(Message::Other(t)) => assert_eq!(t, text),
        other => panic!("unexpected {:?}", other),
    }
    assert_eq!(Kind::from_class("FROB"), Kind::Unknown);
    assert_eq!(Kind::from_class("tpv"), Kind::Unknown);
    assert!(Message::opaque("VERSION", text).is_none());
}

#[test]
fn class_names() {
    let names = [
        ("TPV", Kind::Tpv),
        ("GST", Kind::Gst),
        ("SKY", Kind::Sky),
        ("ATT", Kind::Att),
        ("IMU", Kind::Imu),
        ("DEVICES", Kind::Devices),
        ("DEVICE", Kind::Device),
        ("WATCH", Kind::Watch),
        ("VERSION", Kind::Version),
        ("RTCM2", Kind::Rtcm2),
        ("RTCM3", Kind::Rtcm3),
        ("ERROR", Kind::Error),
        ("TOFF", Kind::Toff),
        ("PPS", Kind::Pps),
        ("OSC", Kind::Osc),
        ("RAW", Kind::Raw),
        ("POLL", Kind::Poll),
    ];
    for (name, kind) in names {
        assert_eq!(Kind::from_class(name), kind);
        assert_eq!(Kind::from_class(name).is_control(), matches!(kind, Kind::Version | Kind::Watch | Kind::Error));
    }
}

fn feed_message(d: &mut FrameDecoder, bytes: &[u8], m: Message) -> Decoded<Message> {
    let (taken, frame) = d.feed(bytes);
    assert_eq!(taken, bytes.len());
    d.settle(frame.unwrap(), Parsed::Message(m))
}

#[test]
fn open_watch_stream_and_close() {
    // Handshake.
    let mut decoder = FrameDecoder::new();
    let first = feed_message(
        &mut decoder,
        b"{\"class\":\"VERSION\",\"release\":\"3.25\",\"rev\":\"3.25\",\"proto_major\":3,\"proto_minor\":15}\n",
        version(3, 15),
    )
    .into_reply()
    .unwrap();
    let client = GpsdClient::open(decoder, first).unwrap();

    // Enter streaming.
    let cmd = RequestMessage::Watch(Some(StreamOptions::json().into_watch())).to_command();
    assert_eq!(cmd, "?WATCH={\"enable\":true,\"json\":true};");
    let mut ex = WatchExchange::new(Some(true));
    ex.step(Some(devices())).unwrap();
    let (w, _) = ex.step(Some(confirmation(true))).unwrap().unwrap();
    assert_eq!(w.json, Some(true));
    let mut stream: GpsdDataStream<V3, Json> = client.stream(&ex).unwrap();

    // A report while streaming.
    let tpv_text = "{\"class\":\"TPV\",\"lat\":35.0,\"lon\":139.0}\n";
    let m = Message::opaque("TPV", tpv_text.to_string()).unwrap();
    let d = feed_message(stream.decoder(), tpv_text.as_bytes(), m);
    match stream.next_message(d) {
        Next::Item(Ok(Message::Report(Kind::Tpv, t))) => assert_eq!(t, tpv_text),
        other => panic!("unexpected {:?}", other),
    }
    assert!(matches!(stream.next_message(Decoded::NeedMore), Next::Pending));

    // Close.
    let cmd = RequestMessage::Watch(Some(close_config())).to_command();
    assert!(cmd.starts_with("?WATCH={\"enable\":false,"));
    let mut close = CloseExchange::new();
    assert!(!close.step(Ok(Some(devices()))).unwrap());
    assert!(close.step(Ok(Some(confirmation(false)))).unwrap());
    let client = stream.close(&close).unwrap();
    assert_eq!(client.decoder.buffered_len(), 0);
}

#[test]
fn stream_refused_without_confirmation() {
    let client = GpsdClient::open(FrameDecoder::new(), Ok(Some(version(3, 16)))).unwrap();
    let ex = WatchExchange::new(Some(true));
    let r: Result<GpsdDataStream<V3, Json>, _> = client.stream(&ex);
    let client = r.err().unwrap();
    let ex = WatchExchange::new(Some(false));
    let r: Result<GpsdDataStream<V3, Nmea>, _> = client.stream(&ex);
    assert!(r.is_err());
}

#[test]
fn open_refuses_old_daemon() {
    assert!(matches!(
        GpsdClient::open(FrameDecoder::new(), Ok(Some(version(3, 14)))),
        Err(GpsdJsonError::UnsupportedProtocolVersion((3, 14)))
    ));
}

#[test]
fn stream_ends_and_reports_errors() {
    let client = GpsdClient::open(FrameDecoder::new(), Ok(Some(version(3, 15)))).unwrap();
    let mut ex = WatchExchange::new(Some(true));
    ex.step(Some(devices())).unwrap();
    ex.step(Some(confirmation(true))).unwrap();
    let stream: GpsdDataStream<V3, Json> = client.stream(&ex).unwrap();
    assert!(matches!(stream.next_message(Decoded::Ended), Next::Finished));
    assert!(matches!(
        stream.next_message(Decoded::Failed(GpsdJsonError::SerdeError("x".to_string()))),
        Next::Item(Err(GpsdJsonError::SerdeError(_)))
    ));
    let close = CloseExchange::new();
    assert!(stream.close(&close).is_err());
}

#[test]
fn sentence_and_raw_streams() {
    assert_eq!(sentence_text(b"$GPGGA,1,2*3F\r\n"), "$GPGGA,1,2*3F");
    assert_eq!(sentence_text(b"a\xffb\n"), "a\u{fffd}b");

    let client = GpsdClient::open(FrameDecoder::new(), Ok(Some(version(3, 15)))).unwrap();
    let mut ex = WatchExchange::new(Some(true));
    ex.step(Some(devices())).unwrap();
    ex.step(Some(confirmation(true))).unwrap();
    let stream: GpsdDataStream<V3, Nmea> = client.stream(&ex).unwrap();
    assert!(matches!(stream.next_sentence(Some(b"$GPRMC \n".to_vec())), Next::Item(Ok(t)) if t == "$GPRMC"));
    assert!(matches!(stream.next_sentence(None), Next::Finished));

    let client = GpsdClient::open(FrameDecoder::new(), Ok(Some(version(3, 15)))).unwrap();
    let stream: GpsdDataStream<V3, Raw> = client.stream(&ex).unwrap();
    assert!(matches!(stream.next_raw(Some(b"ab\n".to_vec())), Next::Item(Ok(b)) if b == b"ab\n".to_vec()));
    assert!(matches!(stream.next_raw(None), Next::Finished));
}

#[test]
fn fault_messages() {
    assert_eq!(Fault::ExpectedWatch.message(), "Expected watch response from GPSD");
    assert_eq!(
        Fault::ClosedBeforeVersion.message(),
        "Connection closed by GPSD before version message"
    );
}

#[test]
fn error_text() {
    assert_eq!(
        GpsdJsonError::UnsupportedProtocolVersion((4, -15)).to_text(),
        "UnsupportedProtocolVersion: 4.-15"
    );
    assert_eq!(
        GpsdJsonError::ProtocolError(Fault::ExpectedPoll).to_text(),
        "ProtocolError: Expected poll response from GPSD"
    );
    assert_eq!(GpsdJsonError::IoError("reset".to_string()).to_text(), "IoError: reset");
}
