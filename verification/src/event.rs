//! Events the service consumes and the effects it asks for.
//!
//! The service is a pure state machine: it consumes one
//! [`ServerEvent`] at a time and appends the I/O it wants — datagrams
//! to send, timers to arm, notifications to deliver — to a list of
//! [`Action`]s that the surrounding runtime performs.

use vstd::prelude::*;

use crate::addr::Ipv6Address;
use crate::handle::{Error, RequestType};
use crate::map::{InboundMap, OutboundMap};
use crate::response::ResponsePacket;

verus! {

/// One event on the service's input channel.
pub enum ServerEvent {
    /// A caller requests an inbound mapping; `id` is the slot the
    /// caller guessed it will get.
    InboundMap {
        /// The requested mapping.
        map: InboundMap,
        /// How long to keep it alive.
        kind: RequestType,
        /// The caller's guess of the assigned slot.
        id: usize,
    },
    /// A caller requests an outbound mapping.
    OutboundMap {
        /// The requested mapping.
        map: OutboundMap,
        /// How long to keep it alive.
        kind: RequestType,
        /// The caller's guess of the assigned slot.
        id: usize,
    },
    /// The owner of the mapping revokes it.
    Revoke(usize),
    /// The owner of the mapping renews it with a new lifetime, in
    /// seconds.
    Renew(usize, u32),
    /// The owner of the service shuts it down.
    Shutdown,
    /// A decoded server datagram, with the client clock at receipt
    /// in milliseconds.
    ServerResponse(u64, ResponsePacket),
    /// An armed timer fired for the given mapping after waiting the
    /// given number of milliseconds.
    Delay(usize, u64),
}

/// What happened to one mapping, reported to its owner.
pub enum MapEventKind {
    /// The server accepted the mapping.
    Accepted {
        /// The lifetime the server assigned, in seconds.
        lifetime: u32,
        /// The external address the server assigned.
        external_ip: Ipv6Address,
        /// The external port the server assigned.
        external_port: u16,
    },
    /// The mapping's lifetime ended.
    Expired,
    /// The server answered with an error result code.
    Error,
    /// The service assigned the mapping a different slot than the
    /// caller guessed.
    NewId(usize),
}

/// A notification about one mapping.
pub struct MapEvent {
    /// The slot of the mapping the notification is about.
    pub id: usize,
    /// What happened to it.
    pub kind: MapEventKind,
}

impl MapEvent {
    /// Pairs a mapping slot with what happened to it.
    pub fn new(id: usize, kind: MapEventKind) -> (r: MapEvent)
        ensures
            r == (MapEvent { id, kind }),
    {
        MapEvent { id, kind }
    }
}

/// A notification from the service to its callers.
pub enum ClientEvent {
    /// Something happened to one mapping.
    Mapping(MapEvent),
    /// A service-level failure.
    Service(Error),
}

/// One effect the service asks the runtime to perform.
pub enum Action {
    /// Send these bytes to the server over the UDP socket.
    Send(Vec<u8>),
    /// Cancel any timer armed for this mapping and arm a fresh
    /// one-shot timer for it, with the wait in milliseconds.
    Arm(usize, u64),
    /// Cancel the timer armed for this mapping, if any.
    Cancel(usize),
    /// Deliver a notification to the service's callers.
    Notify(ClientEvent),
}

} // verus!
