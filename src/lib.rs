//! A client-side engine for gpsd's line-delimited JSON control protocol.
//!
//! The library holds the parts of a session that decide: the frame decoder
//! that cuts a byte stream into newline-terminated frames, the encoder of
//! outgoing commands, the version gate run at connection open, and the rules
//! that pair each command with the replies it must receive. Reading from and
//! writing to the transport is left to the embedding program, which hands
//! the library the bytes it read and sends the command lines it is given.
use vstd::prelude::*;

pub mod client;
pub mod error;
pub mod protocol;
pub mod text;

verus! {

/// Result of an operation of this library.
pub type Result<T> = core::result::Result<T, error::GpsdJsonError>;

} // verus!
