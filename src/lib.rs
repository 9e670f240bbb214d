//! A privileged supervisor service reached over an encrypted local channel.
//!
//! The library holds the logic of the service: the secure channel (key
//! agreement, framing, replay defence), the request/response protocol, and the
//! supervisor that keeps the managed core process running under a retry
//! budget. Sockets, processes and the service manager are driven from outside.

use vstd::prelude::*;

pub mod primitives;
pub mod wire;
pub mod channel;
pub mod data;
pub mod dispatch;
pub mod log_ring;
pub mod supervisor;

verus! {

/// The pre-shared key that the desktop client and the service share; it
/// reads "verge-self-service-psk" in ASCII.
pub const PSK: [u8; 22] = [
    118, 101, 114, 103, 101, 45, 115, 101, 108, 102, 45, 115, 101, 114, 118, 105, 99, 101, 45, 112, 115, 107,
];

} // verus!
