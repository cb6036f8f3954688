use gpsd_json::protocol::v3::types::{
    AntennaStatus, FixMode, FixStatus, GnssId, Parity, PropertyFlags, SatHealth, SatQuality,
    StatusCode, Watch,
};

#[test]
fn test_proto_v3_types_flags() {
    let flags = PropertyFlags::seen_gps().union(&PropertyFlags::seen_ais());
    let serialized = serde_json::to_string(&flags.bits()).unwrap();
    assert_eq!(serialized, "9");

    let deserialized = PropertyFlags::from_bits_truncate(serde_json::from_str(&serialized).unwrap());
    assert_eq!(deserialized, flags);
}

#[test]
fn flags_truncate_and_contain() {
    let f = PropertyFlags::from_bits_truncate(0xff);
    assert_eq!(f.bits(), 0xf);
    assert!(f.contains(&PropertyFlags::seen_rtcm2()));
    assert!(!PropertyFlags::empty().contains(&PropertyFlags::seen_rtcm3()));
}

#[test]
fn numeric_codes() {
    assert_eq!(FixMode::from_code(3), Some(FixMode::Fix3D));
    assert_eq!(FixMode::from_code(4), None);
    assert_eq!(FixMode::Fix2D.code(), 2);
    assert_eq!(FixStatus::from_code(9), Some(FixStatus::PpsFix));
    assert_eq!(FixStatus::from_code(-1), None);
    assert_eq!(FixStatus::RTKFloat.code(), 4);
    assert_eq!(AntennaStatus::from_code(2), Some(AntennaStatus::Open));
    assert_eq!(GnssId::from_code(6), Some(GnssId::Glo));
    assert_eq!(GnssId::from_code(8), None);
    assert_eq!(SatHealth::from_code(2), Some(SatHealth::Bad));
    assert_eq!(SatHealth::from_code(3), None);
}

#[test]
fn quality_indicator() {
    assert_eq!(SatQuality::from_indicator(-1), Some(SatQuality::Invalid));
    assert_eq!(SatQuality::from_indicator(4), Some(SatQuality::CodeLocked));
    assert_eq!(SatQuality::from_indicator(7), Some(SatQuality::CodeCarrierLocked));
    assert_eq!(SatQuality::from_indicator(8), None);
    assert_eq!(SatQuality::from_indicator(-2), None);
}

#[test]
fn letters() {
    assert_eq!(Parity::from_letter("E"), Some(Parity::Even));
    assert_eq!(Parity::from_letter("X"), None);
    assert_eq!(Parity::Odd.letter(), "O");
    assert_eq!(StatusCode::from_letter("V"), Some(StatusCode::VoltageLevel));
    assert_eq!(StatusCode::from_letter("NN"), None);
}

#[test]
fn watch_defaults() {
    let w = Watch::default();
    assert_eq!(w.enable, Some(false));
    assert_eq!(w.raw, Some(0));
    assert_eq!(w.device, None);
    assert_eq!(Watch::empty().enable, None);
}

use gpsd_json::protocol::v3::response::{instant, Pps, TimeOffset, Timestamp};

#[test]
fn instants_from_wire_members() {
    assert_eq!(
        instant(Some(1_700_000_000), Some(250)),
        Some(Timestamp { secs: 1_700_000_000, nanos: 250 })
    );
    assert_eq!(instant(Some(1), None), None);
    assert_eq!(instant(None, Some(1)), None);
    // Nanoseconds past one second are only valid in a leap second.
    assert_eq!(
        instant(Some(59), Some(1_500_000_000)),
        Some(Timestamp { secs: 59, nanos: 1_500_000_000 })
    );
    assert_eq!(instant(Some(0), Some(1_500_000_000)), None);
    assert_eq!(instant(Some(0), Some(2_000_000_000)), None);
    // The nanoseconds member is taken modulo 2^32.
    assert_eq!(instant(Some(5), Some((1i64 << 32) + 7)), Some(Timestamp { secs: 5, nanos: 7 }));
    assert_eq!(instant(Some(i64::MAX), Some(0)), None);
}

#[test]
fn time_offset_and_pps_reports() {
    let t = TimeOffset::from_wire(Some("/dev/pps0".to_string()), Some(10), Some(20), Some(30), None);
    assert_eq!(t.device.as_deref(), Some("/dev/pps0"));
    assert_eq!(t.real, Some(Timestamp { secs: 10, nanos: 20 }));
    assert_eq!(t.clock, None);
    let p = Pps::from_wire(None, Some(1), Some(2), Some(3), Some(4), Some(-20), Some(7));
    assert_eq!(p.real, Some(Timestamp { secs: 1, nanos: 2 }));
    assert_eq!(p.clock, Some(Timestamp { secs: 3, nanos: 4 }));
    assert_eq!(p.precision, Some(-20));
    assert_eq!(p.q_err, Some(7));
}
