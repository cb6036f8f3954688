//! Commands a client sends.
use vstd::prelude::*;

use super::types::Watch;

verus! {

/// A command of protocol version 3.
#[derive(Debug, Clone)]
pub enum Message {
    /// List the devices the daemon knows: `?DEVICES;`.
    Devices,
    /// Read the watch settings (`?WATCH;`), or change them
    /// (`?WATCH={...};`).
    Watch(Option<Watch>),
    /// Read the current device (`?DEVICE;`), or configure one
    /// (`?DEVICE={...};`); the parameter is the device object's compact
    /// JSON text.
    Device(Option<String>),
    /// Ask for a snapshot of the current fixes: `?POLL;`.
    Poll,
    /// Ask for the daemon's version: `?VERSION;`.
    Version,
}

} // verus!
