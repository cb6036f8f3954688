//! Errors of the protocol engine.
use vstd::prelude::*;
use vstd::string::*;

use crate::text::{int_decimal, push_i32_decimal};

verus! {

/// A break in the expected order of frames.
#[derive(Debug, Clone, Copy, PartialEq, Eq, Structural)]
pub enum Fault {
    /// The stream ended before the daemon's version frame.
    ClosedBeforeVersion,
    /// The first frame was not a readable version frame.
    NoVersionMessage,
    /// A version reply was expected.
    ExpectedVersion,
    /// A device-list reply was expected.
    ExpectedDevices,
    /// A single-device reply was expected.
    ExpectedDevice,
    /// A watch confirmation was expected.
    ExpectedWatch,
    /// A poll reply was expected.
    ExpectedPoll,
    /// The watch confirmation did not carry the requested enable flag.
    WatchNotConfirmed,
    /// The stream ended while a watch was being switched off.
    EndedWhileClosing,
}

impl Fault {
    /// A sentence that describes the fault.
    pub fn message(&self) -> (r: &'static str)
        ensures
            r@ == self.spec_message(),
    {
        match self {
            Fault::ClosedBeforeVersion => "Connection closed by GPSD before version message",
            Fault::NoVersionMessage => "Failed to read version message from GPSD",
            Fault::ExpectedVersion => "Expected version response from GPSD",
            Fault::ExpectedDevices => "Expected devices response from GPSD",
            Fault::ExpectedDevice => "Expected device response from GPSD",
            Fault::ExpectedWatch => "Expected watch response from GPSD",
            Fault::ExpectedPoll => "Expected poll response from GPSD",
            Fault::WatchNotConfirmed => "GPSD did not confirm the requested watch state",
            Fault::EndedWhileClosing => "Stream ended unexpectedly while closing",
        }
    }

    /// A sentence that describes the fault.
    pub open spec fn spec_message(self) -> Seq<char> {
        match self {
            Fault::ClosedBeforeVersion => "Connection closed by GPSD before version message"@,
            Fault::NoVersionMessage => "Failed to read version message from GPSD"@,
            Fault::ExpectedVersion => "Expected version response from GPSD"@,
            Fault::ExpectedDevices => "Expected devices response from GPSD"@,
            Fault::ExpectedDevice => "Expected device response from GPSD"@,
            Fault::ExpectedWatch => "Expected watch response from GPSD"@,
            Fault::ExpectedPoll => "Expected poll response from GPSD"@,
            Fault::WatchNotConfirmed => "GPSD did not confirm the requested watch state"@,
            Fault::EndedWhileClosing => "Stream ended unexpectedly while closing"@,
        }
    }
}

/// Why an operation failed.
#[derive(Debug)]
pub enum GpsdJsonError {
    /// The transport failed; the text describes how.
    IoError(String),
    /// A frame was not a well-formed message; the text describes why.
    SerdeError(String),
    /// The daemon speaks an incompatible protocol version, given as
    /// (major, minor).
    UnsupportedProtocolVersion((i32, i32)),
    /// The daemon's frames broke the order that the protocol prescribes.
    ProtocolError(Fault),
}

impl GpsdJsonError {
    /// The text that describes the error: its variant's name, a colon, and
    /// what it carries (a version as `major.minor`).
    pub open spec fn spec_text(&self) -> Seq<char> {
        match self {
            GpsdJsonError::IoError(e) => "IoError: "@ + e@,
            GpsdJsonError::SerdeError(e) => "SerdeError: "@ + e@,
            GpsdJsonError::UnsupportedProtocolVersion((major, minor)) => "UnsupportedProtocolVersion: "@
                + int_decimal(*major as int) + "."@ + int_decimal(*minor as int),
            GpsdJsonError::ProtocolError(f) => "ProtocolError: "@ + f.spec_message(),
        }
    }

    /// The text that describes the error.
    pub fn to_text(&self) -> (r: String)
        ensures
            r@ == self.spec_text(),
    {
        match self {
            GpsdJsonError::IoError(e) => {
                let mut out = String::from_str("IoError: ");
                out.append(e.as_str());
                out
            },
            GpsdJsonError::SerdeError(e) => {
                let mut out = String::from_str("SerdeError: ");
                out.append(e.as_str());
                out
            },
            GpsdJsonError::UnsupportedProtocolVersion((major, minor)) => {
                let mut out = String::from_str("UnsupportedProtocolVersion: ");
                push_i32_decimal(&mut out, *major);
                out.append(".");
                push_i32_decimal(&mut out, *minor);
                out
            },
            GpsdJsonError::ProtocolError(f) => {
                let mut out = String::from_str("ProtocolError: ");
                out.append(f.message());
                out
            },
        }
    }
}

} // verus!
