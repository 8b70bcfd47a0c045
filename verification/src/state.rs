//! The lifecycle state of one mapping and its stored record.

use vstd::prelude::*;

use crate::handle::RequestType;
use crate::packet::{request_packet_bytes, request_size, request_wf, RequestPacket};
use crate::result_code::ResultCode;

verus! {

/// The state of a mapping record.
#[derive(Clone, Copy, Debug, PartialEq, Eq, Structural)]
pub enum State {
    /// The request was submitted but the service has not yet
    /// processed it.
    Requested,
    /// The request has been transmitted the given number of times
    /// beyond the first, with no response yet.
    Starting(usize),
    /// The request is being resent to keep the mapping alive; the
    /// values are the attempt count and the requested lifetime.
    Updating(usize, u32),
    /// The server answered with success.
    Running,
    /// The server answered with an error result code.
    Error(ResultCode),
    /// The lifetime ended without a further renewal.
    Expired,
    /// The mapping was revoked by its owner.
    Revoked,
    /// The record was dropped; its slot may be reused.
    Dropped,
}

/// Whether a state is terminal: such a record takes no further part
/// in retransmission, renewal or recovery, and a `Dropped` slot may
/// be reused.
pub open spec fn is_terminal(s: State) -> bool {
    match s {
        State::Error(_) | State::Expired | State::Revoked | State::Dropped => true,
        _ => false,
    }
}

/// One mapping record: its state, the request kept verbatim so that
/// retransmissions are byte-identical, the cached wire form of the
/// request, and the renewal bookkeeping.
#[derive(Clone, Debug)]
pub struct MappingState {
    /// Lifecycle state of the mapping.
    pub state: State,
    /// The decoded request, kept verbatim.
    pub request: RequestPacket,
    /// Cached wire form of `request`; valid only while `size` is
    /// non-zero.
    pub buffer: Vec<u8>,
    /// Size of the cached wire form; 0 marks the cache invalid.
    pub size: usize,
    /// How long the mapping should be kept alive.
    pub kind: RequestType,
    /// Remaining lifetime, in milliseconds.
    pub rem: u64,
    /// The renewal wait most recently armed, in milliseconds.
    pub renew: u64,
}

impl MappingState {
    /// The record's request is well formed, and a valid cache holds
    /// exactly the request's wire bytes.
    pub open spec fn wf(self) -> bool {
        &&& request_wf(self.request)
        &&& self.size != 0 ==> self.size == request_size(self.request) && self.buffer@
            == request_packet_bytes(self.request)
    }

    /// Builds a record for a freshly submitted request: first
    /// transmission pending, wire bytes cached.
    pub fn new(request: RequestPacket, kind: RequestType) -> (r: MappingState)
        requires
            request_wf(request),
        ensures
            r.state == State::Starting(0usize),
            r.request == request,
            r.kind == kind,
            r.rem == 0,
            r.renew == 0,
            r.wf(),
    {
        let buffer = request.bytes();
        let size = buffer.len();
        proof {
            crate::packet::lemma_request_bytes_len(request);
        }
        MappingState { state: State::Starting(0), request, buffer, size, kind, rem: 0, renew: 0 }
    }

    /// The wire bytes of the record's request, refreshing the cache
    /// if a mutation invalidated it.
    pub fn bytes(&mut self) -> (b: Vec<u8>)
        requires
            old(self).wf(),
        ensures
            b@ == request_packet_bytes(old(self).request),
            final(self).request == old(self).request,
            final(self).state == old(self).state,
            final(self).kind == old(self).kind,
            final(self).rem == old(self).rem,
            final(self).renew == old(self).renew,
            final(self).wf(),
            final(self).size != 0,
    {
        if self.size == 0 {
            self.buffer = self.request.bytes();
            self.update_size();
        }
        proof {
            crate::packet::lemma_request_bytes_len(self.request);
        }
        self.buffer.clone()
    }

    /// Invalidates the cached wire form, after a mutation of the
    /// stored request.
    pub fn clear(&mut self)
        ensures
            *final(self) == (MappingState { size: 0usize, ..*old(self) }),
    {
        self.size = 0;
    }

    /// Recomputes the size of the request; the cached bytes must
    /// already match the request.
    pub fn update_size(&mut self)
        requires
            request_wf(old(self).request),
            old(self).buffer@ == request_packet_bytes(old(self).request),
        ensures
            *final(self) == (MappingState { size: request_size(old(self).request) as usize, ..*old(
                self,
            ) }),
            final(self).wf(),
    {
        proof {
            crate::packet::lemma_request_bytes_len(self.request);
        }
        self.size = self.request.size();
    }
}

} // verus!
