//! A verified client-side implementation of the Port Control Protocol
//! (PCP, RFC 6887): a bit-exact wire codec for the PCP packet family and
//! the state machine of a client service that requests, renews and
//! revokes port mappings.

use vstd::prelude::*;

pub mod addr;
pub mod client;
pub mod decode;
pub mod epoch;
pub mod event;
pub mod handle;
pub mod headers;
pub mod map;
pub mod op_code;
pub mod option_code;
pub mod packet;
pub mod parse;
pub mod parsing_error;
pub mod payloads;
pub mod protocols;
pub mod response;
pub mod result_code;
pub mod slices;
pub mod state;
pub mod timeout;
pub mod util;
pub mod wire;

verus! {

/// Maximum size a PCP UDP packet can have, in bytes.
pub const MAX_PACKET_SIZE: usize = 1100;

/// IANA assigned UDP port on which PCP servers listen for requests.
pub const SERVER_PORT: u16 = 5351;

/// IANA assigned UDP port on which PCP clients listen for multicast
/// notifications from servers.
pub const CLIENT_PORT: u16 = 5350;

} // verus!
