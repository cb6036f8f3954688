//! Data types shared by the messages of protocol version 3.
use vstd::prelude::*;

verus! {

/// Quality of a position fix, as the wire gives it (0 to 3).
#[derive(Debug, Clone, Copy, PartialEq, Eq, Hash, Structural)]
pub enum FixMode {
    /// No data seen yet.
    NotSeen,
    /// Online, but without a fix.
    NoFix,
    /// Latitude and longitude only.
    Fix2D,
    /// Latitude, longitude and altitude.
    Fix3D,
}

impl FixMode {
    /// The wire code of the mode.
    pub open spec fn spec_code(self) -> i32 {
        match self {
            FixMode::NotSeen => 0,
            FixMode::NoFix => 1,
            FixMode::Fix2D => 2,
            FixMode::Fix3D => 3,
        }
    }

    /// The wire code of the mode.
    pub fn code(&self) -> (r: i32)
        ensures
            r == self.spec_code(),
    {
        match self {
            FixMode::NotSeen => 0,
            FixMode::NoFix => 1,
            FixMode::Fix2D => 2,
            FixMode::Fix3D => 3,
        }
    }

    /// The mode with wire code `code`, if there is one.
    pub fn from_code(code: i32) -> (r: Option<FixMode>)
        ensures
            match r {
                Some(m) => m.spec_code() == code,
                None => forall|m: FixMode| m.spec_code() != code,
            },
    {
        match code {
            0 => Some(FixMode::NotSeen),
            1 => Some(FixMode::NoFix),
            2 => Some(FixMode::Fix2D),
            3 => Some(FixMode::Fix3D),
            _ => None,
        }
    }
}

/// How a fix was obtained, as the wire gives it (0 to 9).
#[derive(Debug, Clone, Copy, PartialEq, Eq, Hash, Structural)]
pub enum FixStatus {
    /// Unknown.
    Unknown,
    /// Plain GPS.
    Gps,
    /// Differential GPS.
    DGps,
    /// RTK with fixed integers.
    RTKFixed,
    /// RTK with a float solution.
    RTKFloat,
    /// Dead reckoning.
    DR,
    /// GNSS combined with dead reckoning.
    GnssDR,
    /// Time only, surveyed position.
    Time,
    /// Simulated data.
    Simulated,
    /// Precise positioning service.
    PpsFix,
}

impl FixStatus {
    /// The wire code of the status.
    pub open spec fn spec_code(self) -> i32 {
        match self {
            FixStatus::Unknown => 0,
            FixStatus::Gps => 1,
            FixStatus::DGps => 2,
            FixStatus::RTKFixed => 3,
            FixStatus::RTKFloat => 4,
            FixStatus::DR => 5,
            FixStatus::GnssDR => 6,
            FixStatus::Time => 7,
            FixStatus::Simulated => 8,
            FixStatus::PpsFix => 9,
        }
    }

    /// The wire code of the status.
    pub fn code(&self) -> (r: i32)
        ensures
            r == self.spec_code(),
    {
        match self {
            FixStatus::Unknown => 0,
            FixStatus::Gps => 1,
            FixStatus::DGps => 2,
            FixStatus::RTKFixed => 3,
            FixStatus::RTKFloat => 4,
            FixStatus::DR => 5,
            FixStatus::GnssDR => 6,
            FixStatus::Time => 7,
            FixStatus::Simulated => 8,
            FixStatus::PpsFix => 9,
        }
    }

    /// The status with wire code `code`, if there is one.
    pub fn from_code(code: i32) -> (r: Option<FixStatus>)
        ensures
            match r {
                Some(s) => s.spec_code() == code,
                None => forall|s: FixStatus| s.spec_code() != code,
            },
    {
        match code {
            0 => Some(FixStatus::Unknown),
            1 => Some(FixStatus::Gps),
            2 => Some(FixStatus::DGps),
            3 => Some(FixStatus::RTKFixed),
            4 => Some(FixStatus::RTKFloat),
            5 => Some(FixStatus::DR),
            6 => Some(FixStatus::GnssDR),
            7 => Some(FixStatus::Time),
            8 => Some(FixStatus::Simulated),
            9 => Some(FixStatus::PpsFix),
            _ => None,
        }
    }
}

/// Electrical state of the antenna, as the wire gives it (0 to 3).
#[derive(Debug, Clone, Copy, PartialEq, Eq, Hash, Structural)]
pub enum AntennaStatus {
    /// Not reported.
    Unknown,
    /// Connected and working.
    Working,
    /// Open circuit.
    Open,
    /// Short circuit.
    Short,
}

impl AntennaStatus {
    /// The wire code of the status.
    pub open spec fn spec_code(self) -> i32 {
        match self {
            AntennaStatus::Unknown => 0,
            AntennaStatus::Working => 1,
            AntennaStatus::Open => 2,
            AntennaStatus::Short => 3,
        }
    }

    /// The status with wire code `code`, if there is one.
    pub fn from_code(code: i32) -> (r: Option<AntennaStatus>)
        ensures
            match r {
                Some(s) => s.spec_code() == code,
                None => forall|s: AntennaStatus| s.spec_code() != code,
            },
    {
        match code {
            0 => Some(AntennaStatus::Unknown),
            1 => Some(AntennaStatus::Working),
            2 => Some(AntennaStatus::Open),
            3 => Some(AntennaStatus::Short),
            _ => None,
        }
    }
}

/// Tracking state of one satellite signal.
#[derive(Debug, Clone, Copy, PartialEq, Eq, Hash, Structural)]
pub enum SatQuality {
    /// Invalid (-1).
    Invalid,
    /// No signal (0).
    NoSignal,
    /// Searching (1).
    Searching,
    /// Acquired (2).
    Acquired,
    /// Acquired but unusable (3).
    Unusable,
    /// Code locked (4).
    CodeLocked,
    /// Code and carrier locked (5 to 7).
    CodeCarrierLocked,
}

impl SatQuality {
    /// The quality that the wire indicator `v` stands for.
    pub open spec fn spec_from_indicator(v: i8) -> Option<SatQuality> {
        if v == -1 {
            Some(SatQuality::Invalid)
        } else if v == 0 {
            Some(SatQuality::NoSignal)
        } else if v == 1 {
            Some(SatQuality::Searching)
        } else if v == 2 {
            Some(SatQuality::Acquired)
        } else if v == 3 {
            Some(SatQuality::Unusable)
        } else if v == 4 {
            Some(SatQuality::CodeLocked)
        } else if 5 <= v <= 7 {
            Some(SatQuality::CodeCarrierLocked)
        } else {
            None
        }
    }

    /// The quality that the wire indicator `v` stands for; `None` outside -1 to 7.
    pub fn from_indicator(v: i8) -> (r: Option<SatQuality>)
        ensures
            r == Self::spec_from_indicator(v),
    {
        match v {
            -1 => Some(SatQuality::Invalid),
            0 => Some(SatQuality::NoSignal),
            1 => Some(SatQuality::Searching),
            2 => Some(SatQuality::Acquired),
            3 => Some(SatQuality::Unusable),
            4 => Some(SatQuality::CodeLocked),
            5..=7 => Some(SatQuality::CodeCarrierLocked),
            _ => None,
        }
    }
}

/// Satellite constellation, as the wire gives it (0 to 7).
#[derive(Debug, Clone, Copy, PartialEq, Eq, Hash, Structural)]
pub enum GnssId {
    /// GPS.
    Gps,
    /// SBAS.
    Sbas,
    /// Galileo.
    Gal,
    /// BeiDou.
    Bd,
    /// IMES.
    Imes,
    /// QZSS.
    Qzss,
    /// GLONASS.
    Glo,
    /// IRNSS.
    Irnss,
}

impl GnssId {
    /// The wire code of the constellation.
    pub open spec fn spec_code(self) -> u8 {
        match self {
            GnssId::Gps => 0,
            GnssId::Sbas => 1,
            GnssId::Gal => 2,
            GnssId::Bd => 3,
            GnssId::Imes => 4,
            GnssId::Qzss => 5,
            GnssId::Glo => 6,
            GnssId::Irnss => 7,
        }
    }

    /// The constellation with wire code `code`, if there is one.
    pub fn from_code(code: u8) -> (r: Option<GnssId>)
        ensures
            match r {
                Some(g) => g.spec_code() == code,
                None => forall|g: GnssId| g.spec_code() != code,
            },
    {
        match code {
            0 => Some(GnssId::Gps),
            1 => Some(GnssId::Sbas),
            2 => Some(GnssId::Gal),
            3 => Some(GnssId::Bd),
            4 => Some(GnssId::Imes),
            5 => Some(GnssId::Qzss),
            6 => Some(GnssId::Glo),
            7 => Some(GnssId::Irnss),
            _ => None,
        }
    }
}

/// Satellite health, as the wire gives it (0 to 2).
#[derive(Debug, Clone, Copy, PartialEq, Eq, Hash, Structural)]
pub enum SatHealth {
    /// Unknown.
    Unknown,
    /// Healthy.
    Healthy,
    /// Unhealthy.
    Bad,
}

impl SatHealth {
    /// The wire code of the health state.
    pub open spec fn spec_code(self) -> u8 {
        match self {
            SatHealth::Unknown => 0,
            SatHealth::Healthy => 1,
            SatHealth::Bad => 2,
        }
    }

    /// The health state with wire code `code`, if there is one.
    pub fn from_code(code: u8) -> (r: Option<SatHealth>)
        ensures
            match r {
                Some(h) => h.spec_code() == code,
                None => forall|h: SatHealth| h.spec_code() != code,
            },
    {
        match code {
            0 => Some(SatHealth::Unknown),
            1 => Some(SatHealth::Healthy),
            2 => Some(SatHealth::Bad),
            _ => None,
        }
    }
}

/// Parity of a serial line: `"N"`, `"O"` or `"E"` on the wire.
#[derive(Debug, Clone, Copy, PartialEq, Eq, Hash, Structural)]
pub enum Parity {
    /// No parity bit.
    No,
    /// Odd parity.
    Odd,
    /// Even parity.
    Even,
}

impl Parity {
    /// The wire letter of the parity.
    pub open spec fn spec_letter(self) -> Seq<char> {
        match self {
            Parity::No => "N"@,
            Parity::Odd => "O"@,
            Parity::Even => "E"@,
        }
    }

    /// The wire letter of the parity.
    pub fn letter(&self) -> (r: &'static str)
        ensures
            r@ == self.spec_letter(),
    {
        match self {
            Parity::No => "N",
            Parity::Odd => "O",
            Parity::Even => "E",
        }
    }

    /// The parity whose wire letter is `s`, if there is one.
    pub fn from_letter(s: &str) -> (r: Option<Parity>)
        ensures
            match r {
                Some(p) => p.spec_letter() == s@,
                None => forall|p: Parity| p.spec_letter() != s@,
            },
    {
        if crate::text::str_eq(s, "N") {
            Some(Parity::No)
        } else if crate::text::str_eq(s, "O") {
            Some(Parity::Odd)
        } else if crate::text::str_eq(s, "E") {
            Some(Parity::Even)
        } else {
            None
        }
    }
}

/// State of a sensor reading, one letter on the wire.
#[derive(Debug, Clone, Copy, PartialEq, Eq, Hash, Structural)]
pub enum StatusCode {
    /// Magnetometer calibration alarm (`C`).
    Calibration,
    /// Low alarm (`L`).
    Low,
    /// Low warning (`M`).
    LowWarning,
    /// Normal (`N`).
    Normal,
    /// High warning (`O`).
    HighWarning,
    /// High alarm (`P`).
    High,
    /// Magnetometer voltage level alarm (`V`).
    VoltageLevel,
}

impl StatusCode {
    /// The wire letter of the state.
    pub open spec fn spec_letter(self) -> Seq<char> {
        match self {
            StatusCode::Calibration => "C"@,
            StatusCode::Low => "L"@,
            StatusCode::LowWarning => "M"@,
            StatusCode::Normal => "N"@,
            StatusCode::HighWarning => "O"@,
            StatusCode::High => "P"@,
            StatusCode::VoltageLevel => "V"@,
        }
    }

    /// The state whose wire letter is `s`, if there is one.
    pub fn from_letter(s: &str) -> (r: Option<StatusCode>)
        ensures
            match r {
                Some(c) => c.spec_letter() == s@,
                None => forall|c: StatusCode| c.spec_letter() != s@,
            },
    {
        if crate::text::str_eq(s, "C") {
            Some(StatusCode::Calibration)
        } else if crate::text::str_eq(s, "L") {
            Some(StatusCode::Low)
        } else if crate::text::str_eq(s, "M") {
            Some(StatusCode::LowWarning)
        } else if crate::text::str_eq(s, "N") {
            Some(StatusCode::Normal)
        } else if crate::text::str_eq(s, "O") {
            Some(StatusCode::HighWarning)
        } else if crate::text::str_eq(s, "P") {
            Some(StatusCode::High)
        } else if crate::text::str_eq(s, "V") {
            Some(StatusCode::VoltageLevel)
        } else {
            None
        }
    }
}

/// The bits of a device's property flags that carry a meaning.
pub const PROPERTY_BITS: u32 = 0xf;

/// What kinds of data a device has been seen to send, as a set of bits:
/// GPS (1), RTCM2 (2), RTCM3 (4) and AIS (8).
#[derive(Debug, Clone, Copy, PartialEq, Eq, Hash, Structural)]
pub struct PropertyFlags {
    bits: u32,
}

impl PropertyFlags {
    /// The bits of the set.
    pub closed spec fn spec_bits(self) -> u32 {
        self.bits
    }

    /// The bits of the set.
    pub fn bits(&self) -> (r: u32)
        ensures
            r == self.spec_bits(),
    {
        self.bits
    }

    /// The set of the known flags among `bits`; other bits are dropped.
    pub fn from_bits_truncate(bits: u32) -> (r: PropertyFlags)
        ensures
            r.spec_bits() == bits & PROPERTY_BITS,
    {
        PropertyFlags { bits: bits & PROPERTY_BITS }
    }

    /// The empty set.
    pub fn empty() -> (r: PropertyFlags)
        ensures
            r.spec_bits() == 0,
    {
        PropertyFlags { bits: 0 }
    }

    /// GPS data has been seen.
    pub fn seen_gps() -> (r: PropertyFlags)
        ensures
            r.spec_bits() == 1,
    {
        PropertyFlags { bits: 1 }
    }

    /// RTCM2 data has been seen.
    pub fn seen_rtcm2() -> (r: PropertyFlags)
        ensures
            r.spec_bits() == 2,
    {
        PropertyFlags { bits: 2 }
    }

    /// RTCM3 data has been seen.
    pub fn seen_rtcm3() -> (r: PropertyFlags)
        ensures
            r.spec_bits() == 4,
    {
        PropertyFlags { bits: 4 }
    }

    /// AIS data has been seen.
    pub fn seen_ais() -> (r: PropertyFlags)
        ensures
            r.spec_bits() == 8,
    {
        PropertyFlags { bits: 8 }
    }

    /// The flags in either set.
    pub fn union(&self, other: &PropertyFlags) -> (r: PropertyFlags)
        ensures
            r.spec_bits() == self.spec_bits() | other.spec_bits(),
    {
        PropertyFlags { bits: self.bits | other.bits }
    }

    /// True when every flag of `other` is in this set.
    pub fn contains(&self, other: &PropertyFlags) -> (r: bool)
        ensures
            r == (self.spec_bits() & other.spec_bits() == other.spec_bits()),
    {
        self.bits & other.bits == other.bits
    }
}

/// What the daemon should stream, as sent with a watch command and as
/// confirmed in its reply. A field that is `None` is left out on the wire
/// and leaves the daemon's setting as it is.
#[derive(Debug, Clone, PartialEq, Eq)]
pub struct Watch {
    /// Only this device, or every device when `None`.
    pub device: Option<String>,
    /// Streaming on or off.
    pub enable: Option<bool>,
    /// Structured (JSON) reports.
    pub json: Option<bool>,
    /// Sentence (NMEA) output.
    pub nmea: Option<bool>,
    /// Pulse-per-second reports.
    pub pps: Option<bool>,
    /// Raw output: 0 off, 1 hex dump, 2 binary.
    pub raw: Option<i32>,
    /// Scaled output.
    pub scaled: Option<bool>,
    /// AIS type 24 messages split in two parts.
    pub split24: Option<bool>,
    /// Timing information.
    pub timing: Option<bool>,
    /// URL of a remote daemon.
    pub remote: Option<String>,
}

impl Watch {
    /// The protocol's defaults: every switch given and off, no device and
    /// no remote.
    pub open spec fn spec_default() -> Watch {
        Watch {
            device: None,
            enable: Some(false),
            json: Some(false),
            nmea: Some(false),
            pps: Some(false),
            raw: Some(0),
            scaled: Some(false),
            split24: Some(false),
            timing: Some(false),
            remote: None,
        }
    }

    /// A configuration with no field given.
    pub open spec fn spec_empty() -> Watch {
        Watch {
            device: None,
            enable: None,
            json: None,
            nmea: None,
            pps: None,
            raw: None,
            scaled: None,
            split24: None,
            timing: None,
            remote: None,
        }
    }

    /// A configuration with no field given.
    pub fn empty() -> (r: Watch)
        ensures
            r == Watch::spec_empty(),
    {
        Watch {
            device: None,
            enable: None,
            json: None,
            nmea: None,
            pps: None,
            raw: None,
            scaled: None,
            split24: None,
            timing: None,
            remote: None,
        }
    }
}

impl Default for Watch {
    fn default() -> (r: Watch)
        ensures
            r == Watch::spec_default(),
    {
        Watch {
            device: None,
            enable: Some(false),
            json: Some(false),
            nmea: Some(false),
            pps: Some(false),
            raw: Some(0),
            scaled: Some(false),
            split24: Some(false),
            timing: Some(false),
            remote: None,
        }
    }
}

} // verus!
