//! Replies and reports the daemon sends.
//!
//! Every frame is a JSON object whose `class` member names its kind. This
//! engine decodes the payload of the kinds that steer a session (version,
//! watch confirmation, error notification); every other kind is kept as the
//! text of its frame, for the embedding program to decode as it needs.
use vstd::prelude::*;

use crate::text::str_eq;

use super::types::Watch;

verus! {

/// The daemon's version.
#[derive(Debug, Clone)]
pub struct Version {
    /// Release, such as `3.25`.
    pub release: String,
    /// Source revision.
    pub rev: String,
    /// Major protocol version.
    pub proto_major: i32,
    /// Minor protocol version.
    pub proto_minor: i32,
    /// URL of a remote daemon, if any.
    pub remote: Option<String>,
}

/// An error notification from the daemon.
#[derive(Debug, Clone)]
pub struct Error {
    /// What went wrong.
    pub message: String,
}

/// Attitude report; it carries no member this library reads.
#[derive(Debug, Clone, Copy, PartialEq, Eq, Structural)]
pub struct Attitude {}

/// Inertial measurement report; it carries no member this library reads.
#[derive(Debug, Clone, Copy, PartialEq, Eq, Structural)]
pub struct Imu {}

/// RTCM2 correction data; it carries no member this library reads.
#[derive(Debug, Clone, Copy, PartialEq, Eq, Structural)]
pub struct Rtcm2 {}

/// RTCM3 correction data; it carries no member this library reads.
#[derive(Debug, Clone, Copy, PartialEq, Eq, Structural)]
pub struct Rtcm3 {}

/// State of a disciplined oscillator.
#[derive(Debug, Clone)]
pub struct Oscillator {
    /// Device path of the oscillator.
    pub device: String,
    /// Running.
    pub running: bool,
    /// Is the reference clock.
    pub reference: bool,
    /// Disciplined to the reference.
    pub disciplined: bool,
}

/// An instant in UTC: seconds since the Unix epoch and nanoseconds within
/// the second (up to 1999999999, the excess marking a leap second).
#[derive(Debug, Clone, Copy, PartialEq, Eq, Structural)]
pub struct Timestamp {
    /// Seconds since 1970-01-01T00:00:00Z.
    pub secs: i64,
    /// Nanoseconds within the second.
    pub nanos: u32,
}

/// True when chrono can represent the instant `secs` seconds and `nanos`
/// nanoseconds after the Unix epoch as a UTC date-time.
pub uninterp spec fn utc_representable(secs: i64, nanos: u32) -> bool;

/// Relies on `chrono::DateTime::<Utc>::from_timestamp`: it returns a
/// date-time exactly when the pair is in chrono's range and the nanoseconds
/// are valid for that second.
#[verifier::external_body]
fn utc_timestamp(secs: i64, nanos: u32) -> (r: Option<Timestamp>)
    ensures
        r is Some <==> utc_representable(secs, nanos),
        r matches Some(t) ==> t.secs == secs && t.nanos == nanos,
{
    chrono::DateTime::<chrono::Utc>::from_timestamp(secs, nanos).map(|_| Timestamp { secs, nanos })
}

/// The instant that a pair of wire members gives, when both are present:
/// the nanoseconds are taken modulo 2^32, and the pair must be
/// representable.
pub open spec fn instant_of(sec: Option<i64>, nsec: Option<i64>) -> Option<Timestamp> {
    match (sec, nsec) {
        (Some(s), Some(n)) => if utc_representable(s, n as u32) {
            Some(Timestamp { secs: s, nanos: n as u32 })
        } else {
            None
        },
        _ => None,
    }
}

/// The instant that a seconds member and a nanoseconds member give.
pub fn instant(sec: Option<i64>, nsec: Option<i64>) -> (r: Option<Timestamp>)
    ensures
        r == instant_of(sec, nsec),
{
    match (sec, nsec) {
        (Some(s), Some(n)) => {
            let nanos: u32 = #[verifier::truncate] (n as u32);
            utc_timestamp(s, nanos)
        },
        _ => None,
    }
}

/// Offset between the system clock and GPS time.
#[derive(Debug, Clone)]
pub struct TimeOffset {
    /// Device that reported it.
    pub device: Option<String>,
    /// GPS time.
    pub real: Option<Timestamp>,
    /// System clock time.
    pub clock: Option<Timestamp>,
}

impl TimeOffset {
    /// The report made of its wire members: each instant is present when
    /// both its members are and chrono can represent it.
    pub fn from_wire(
        device: Option<String>,
        real_sec: Option<i64>,
        real_nsec: Option<i64>,
        clock_sec: Option<i64>,
        clock_nsec: Option<i64>,
    ) -> (r: TimeOffset)
        ensures
            r.device == device,
            r.real == instant_of(real_sec, real_nsec),
            r.clock == instant_of(clock_sec, clock_nsec),
    {
        TimeOffset {
            device,
            real: instant(real_sec, real_nsec),
            clock: instant(clock_sec, clock_nsec),
        }
    }
}

/// Pulse-per-second timing.
#[derive(Debug, Clone)]
pub struct Pps {
    /// Device that reported it.
    pub device: Option<String>,
    /// GPS time of the pulse edge.
    pub real: Option<Timestamp>,
    /// System clock time of the pulse edge.
    pub clock: Option<Timestamp>,
    /// Clock precision.
    pub precision: Option<i32>,
    /// Quantization error of the pulse.
    pub q_err: Option<i32>,
}

impl Pps {
    /// The report made of its wire members: each instant is present when
    /// both its members are and chrono can represent it.
    pub fn from_wire(
        device: Option<String>,
        real_sec: Option<i64>,
        real_nsec: Option<i64>,
        clock_sec: Option<i64>,
        clock_nsec: Option<i64>,
        precision: Option<i32>,
        q_err: Option<i32>,
    ) -> (r: Pps)
        ensures
            r.device == device,
            r.real == instant_of(real_sec, real_nsec),
            r.clock == instant_of(clock_sec, clock_nsec),
            r.precision == precision,
            r.q_err == q_err,
    {
        Pps {
            device,
            real: instant(real_sec, real_nsec),
            clock: instant(clock_sec, clock_nsec),
            precision,
            q_err,
        }
    }
}

/// The kind of a frame, given by its `class` member.
#[derive(Debug, Clone, Copy, PartialEq, Eq, Structural)]
pub enum Kind {
    /// `TPV`: time, position, velocity.
    Tpv,
    /// `GST`: pseudorange error statistics.
    Gst,
    /// `SKY`: satellites in view.
    Sky,
    /// `ATT`: attitude.
    Att,
    /// `IMU`: inertial measurements.
    Imu,
    /// `DEVICES`: the device list.
    Devices,
    /// `DEVICE`: one device.
    Device,
    /// `WATCH`: watch confirmation.
    Watch,
    /// `VERSION`: daemon version.
    Version,
    /// `RTCM2`: corrections.
    Rtcm2,
    /// `RTCM3`: corrections.
    Rtcm3,
    /// `ERROR`: error notification.
    Error,
    /// `TOFF`: time offset.
    Toff,
    /// `PPS`: pulse per second.
    Pps,
    /// `OSC`: oscillator state.
    Osc,
    /// `RAW`: raw measurements.
    Raw,
    /// `POLL`: snapshot of current fixes.
    Poll,
    /// Any other class.
    Unknown,
}

/// The kind that the class name `c` selects.
pub open spec fn class_kind(c: Seq<char>) -> Kind {
    if c == "TPV"@ {
        Kind::Tpv
    } else if c == "GST"@ {
        Kind::Gst
    } else if c == "SKY"@ {
        Kind::Sky
    } else if c == "ATT"@ {
        Kind::Att
    } else if c == "IMU"@ {
        Kind::Imu
    } else if c == "DEVICES"@ {
        Kind::Devices
    } else if c == "DEVICE"@ {
        Kind::Device
    } else if c == "WATCH"@ {
        Kind::Watch
    } else if c == "VERSION"@ {
        Kind::Version
    } else if c == "RTCM2"@ {
        Kind::Rtcm2
    } else if c == "RTCM3"@ {
        Kind::Rtcm3
    } else if c == "ERROR"@ {
        Kind::Error
    } else if c == "TOFF"@ {
        Kind::Toff
    } else if c == "PPS"@ {
        Kind::Pps
    } else if c == "OSC"@ {
        Kind::Osc
    } else if c == "RAW"@ {
        Kind::Raw
    } else if c == "POLL"@ {
        Kind::Poll
    } else {
        Kind::Unknown
    }
}

impl Kind {
    /// The kind that the class name `class` selects; any name outside the
    /// protocol's set is `Unknown`.
    pub fn from_class(class: &str) -> (r: Kind)
        ensures
            r == class_kind(class@),
    {
        if str_eq(class, "TPV") {
            Kind::Tpv
        } else if str_eq(class, "GST") {
            Kind::Gst
        } else if str_eq(class, "SKY") {
            Kind::Sky
        } else if str_eq(class, "ATT") {
            Kind::Att
        } else if str_eq(class, "IMU") {
            Kind::Imu
        } else if str_eq(class, "DEVICES") {
            Kind::Devices
        } else if str_eq(class, "DEVICE") {
            Kind::Device
        } else if str_eq(class, "WATCH") {
            Kind::Watch
        } else if str_eq(class, "VERSION") {
            Kind::Version
        } else if str_eq(class, "RTCM2") {
            Kind::Rtcm2
        } else if str_eq(class, "RTCM3") {
            Kind::Rtcm3
        } else if str_eq(class, "ERROR") {
            Kind::Error
        } else if str_eq(class, "TOFF") {
            Kind::Toff
        } else if str_eq(class, "PPS") {
            Kind::Pps
        } else if str_eq(class, "OSC") {
            Kind::Osc
        } else if str_eq(class, "RAW") {
            Kind::Raw
        } else if str_eq(class, "POLL") {
            Kind::Poll
        } else {
            Kind::Unknown
        }
    }

    /// True for the kinds whose payload this engine decodes itself.
    pub open spec fn spec_is_control(self) -> bool {
        self is Version || self is Watch || self is Error
    }

    /// True for the kinds whose payload this engine decodes itself:
    /// version, watch confirmation and error notification.
    pub fn is_control(&self) -> (r: bool)
        ensures
            r == self.spec_is_control(),
    {
        match self {
            Kind::Version | Kind::Watch | Kind::Error => true,
            _ => false,
        }
    }
}

/// A decoded frame.
#[derive(Debug, Clone)]
pub enum Message {
    /// The daemon's version.
    Version(Version),
    /// A watch confirmation: the watch settings now in force.
    Watch(Watch),
    /// An error notification.
    Error(Error),
    /// A frame of another known kind, kept as the frame's text.
    Report(Kind, String),
    /// A frame whose class is not one the protocol defines, kept as the
    /// frame's text.
    Other(String),
}

impl Message {
    /// The kind of the message.
    pub open spec fn spec_kind(&self) -> Kind {
        match self {
            Message::Version(_) => Kind::Version,
            Message::Watch(_) => Kind::Watch,
            Message::Error(_) => Kind::Error,
            Message::Report(k, _) => *k,
            Message::Other(_) => Kind::Unknown,
        }
    }

    /// The kind of the message.
    pub fn kind(&self) -> (r: Kind)
        ensures
            r == self.spec_kind(),
    {
        match self {
            Message::Version(_) => Kind::Version,
            Message::Watch(_) => Kind::Watch,
            Message::Error(_) => Kind::Error,
            Message::Report(k, _) => *k,
            Message::Other(_) => Kind::Unknown,
        }
    }

    /// The message for a frame of class `class` whose payload stays
    /// opaque, carrying the frame's `text`. A class outside the protocol's
    /// set gives `Other`, never an error. A control class (version, watch,
    /// error) gives `None`: its payload must be decoded into its own
    /// variant.
    pub fn opaque(class: &str, text: String) -> (r: Option<Message>)
        ensures
            class_kind(class@).spec_is_control() ==> r is None,
            class_kind(class@) is Unknown ==> r == Some(Message::Other(text)),
            !class_kind(class@).spec_is_control() && !(class_kind(class@) is Unknown) ==> r
                == Some(Message::Report(class_kind(class@), text)),
    {
        let kind = Kind::from_class(class);
        if kind.is_control() {
            None
        } else {
            match kind {
                Kind::Unknown => Some(Message::Other(text)),
                _ => Some(Message::Report(kind, text)),
            }
        }
    }
}

} // verus!
