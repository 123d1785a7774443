//! Ports that the device listens on.

use vstd::prelude::*;

verus! {

/// Port for "alive" messages (simple pings).
pub const ALIVE: u16 = 45456;

/// Port for commands (get info, enable/disable output, etc.).
pub const CMD: u16 = 45457;

/// Port for point data transmission.
pub const DATA: u16 = 45458;

} // verus!
