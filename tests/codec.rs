use gpsd_json::client::{close_config, watch_mode_config, StreamOptions};
use gpsd_json::protocol::v3::types::Watch;
use gpsd_json::protocol::v3::{encode_watch, RequestMessage};
use gpsd_json::protocol::GpsdJsonRequest;

#[test]
fn commands_without_parameters() {
    assert_eq!(RequestMessage::Devices.to_command(), "?DEVICES;");
    assert_eq!(RequestMessage::Watch(None).to_command(), "?WATCH;");
    assert_eq!(RequestMessage::Device(None).to_command(), "?DEVICE;");
    assert_eq!(RequestMessage::Poll.to_command(), "?POLL;");
    assert_eq!(RequestMessage::Version.to_command(), "?VERSION;");
}

#[test]
fn device_command_with_parameter() {
    let cmd = RequestMessage::Device(Some("{\"path\":\"/dev/ttyUSB0\",\"bps\":9600}".to_string()))
        .to_command();
    assert_eq!(cmd, "?DEVICE={\"path\":\"/dev/ttyUSB0\",\"bps\":9600};");
}

#[test]
fn watch_command_for_structured_stream() {
    let w = StreamOptions::json().into_watch();
    assert_eq!(
        RequestMessage::Watch(Some(w)).to_command(),
        "?WATCH={\"enable\":true,\"json\":true};"
    );
}

#[test]
fn watch_command_for_close() {
    assert_eq!(
        RequestMessage::Watch(Some(close_config())).to_command(),
        "?WATCH={\"enable\":false,\"json\":false,\"nmea\":false,\"pps\":false,\"raw\":0,\"scaled\":false,\"split24\":false,\"timing\":false};"
    );
}

#[test]
fn watch_mode_keeps_defaults() {
    let w = watch_mode_config(true);
    assert_eq!(w.enable, Some(true));
    assert_eq!(w.json, Some(false));
    assert_eq!(w.raw, Some(0));
}

#[test]
fn empty_watch_is_empty_object() {
    assert_eq!(encode_watch(&Watch::empty()), "{}");
}

#[test]
fn watch_strings_are_escaped_and_integers_written() {
    let mut w = Watch::empty();
    w.device = Some("/dev/tty\"1\\".to_string());
    w.raw = Some(-2147483648);
    w.remote = Some("tcp://h".to_string());
    assert_eq!(
        encode_watch(&w),
        "{\"device\":\"/dev/tty\\\"1\\\\\",\"raw\":-2147483648,\"remote\":\"tcp://h\"}"
    );
    w.raw = Some(1234);
    w.device = None;
    w.remote = None;
    assert_eq!(encode_watch(&w), "{\"raw\":1234}");
}

#[test]
fn watch_round_trip_through_json() {
    let mut w = Watch::empty();
    w.device = Some("/dev/ttyACM0".to_string());
    w.enable = Some(true);
    w.nmea = Some(false);
    w.raw = Some(2);
    w.timing = Some(true);
    let text = encode_watch(&w);
    let v: serde_json::Value = serde_json::from_str(&text).unwrap();
    let o = v.as_object().unwrap();
    assert_eq!(o.len(), 5);
    let back = Watch {
        device: o.get("device").and_then(|x| x.as_str()).map(|s| s.to_string()),
        enable: o.get("enable").and_then(|x| x.as_bool()),
        json: o.get("json").and_then(|x| x.as_bool()),
        nmea: o.get("nmea").and_then(|x| x.as_bool()),
        pps: o.get("pps").and_then(|x| x.as_bool()),
        raw: o.get("raw").and_then(|x| x.as_i64()).map(|n| n as i32),
        scaled: o.get("scaled").and_then(|x| x.as_bool()),
        split24: o.get("split24").and_then(|x| x.as_bool()),
        timing: o.get("timing").and_then(|x| x.as_bool()),
        remote: o.get("remote").and_then(|x| x.as_str()).map(|s| s.to_string()),
    };
    assert_eq!(back, w);
}

#[test]
fn stream_option_builders() {
    let w = StreamOptions::json().pps(true).timing(false).scaled(true).split24(false).into_watch();
    assert_eq!(w.enable, Some(true));
    assert_eq!(w.json, Some(true));
    assert_eq!(w.pps, Some(true));
    assert_eq!(w.timing, Some(false));
    assert_eq!(w.scaled, Some(true));
    assert_eq!(w.split24, Some(false));
    assert_eq!(w.nmea, None);

    let w = StreamOptions::nmea().device("/dev/ttyUSB0").into_watch();
    assert_eq!(w.nmea, Some(true));
    assert_eq!(w.device.as_deref(), Some("/dev/ttyUSB0"));

    let w = StreamOptions::raw().into_watch();
    assert_eq!(w.raw, Some(1));
    let w = StreamOptions::raw().hex_dump(false).device("/dev/gps").into_watch();
    assert_eq!(w.raw, Some(2));
    assert_eq!(w.device.as_deref(), Some("/dev/gps"));
    let w = StreamOptions::raw().hex_dump(true).into_watch();
    assert_eq!(w.raw, Some(1));
}
