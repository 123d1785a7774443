//! Wire protocol and flow-control model for LaserCube network projectors.
//!
//! The crate encodes the commands that a LaserCube understands, decodes what
//! the device answers, and keeps the sender's estimate of how much room the
//! device's point buffer has left. It opens no socket: a transport hands it
//! the bytes it received and sends the bytes it is given.

pub mod buffer;
pub mod cmds;
pub mod discover;
pub mod info;
pub mod point;
pub mod port;
pub mod reply;
pub mod status;
pub mod text;
pub mod wire;

pub use buffer::BufferState;
pub use cmds::{Command, CommandType, Response, ResponseParseError, SampleData};
pub use info::{ConnectionType, LaserInfo, LaserInfoHeader, LaserInfoParseError};
pub use point::Point;
pub use status::StatusFlags;
use vstd::prelude::*;

verus! {

/// Maximum points per data message to stay under typical network MTU.
pub const MAX_POINTS_PER_MESSAGE: usize = 140;

/// Default broadcast address.
pub const DEFAULT_BROADCAST_ADDR: &'static str = "255.255.255.255";

} // verus!
