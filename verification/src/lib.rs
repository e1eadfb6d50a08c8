//! Packet layer of the DrCOM PPPoE network-access heartbeat protocol:
//! byte-exact construction of Challenge Request and Heartbeat Request
//! packets, parsing of Challenge Response packets, and the checksum
//! strategies the heartbeat footer is built from.

pub mod crc;
pub mod endian;
pub mod packet;

use vstd::prelude::*;

verus! {

} // verus!
