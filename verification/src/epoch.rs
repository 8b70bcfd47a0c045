//! The server epoch and its validity check, per RFC 6887 section 8.5.

use vstd::prelude::*;

verus! {

/// A server epoch value: seconds since the server last lost state.
#[derive(Clone, Copy, Debug, PartialEq, Eq, Structural)]
pub struct Epoch(pub u32);

/// A stored epoch paired with the client's clock reading at receipt,
/// in milliseconds.
#[derive(Clone, Copy, Debug, PartialEq, Eq, Structural)]
pub struct EpochSnapshot {
    /// The epoch the server reported.
    pub epoch: Epoch,
    /// The client's clock when the response carrying it arrived,
    /// in milliseconds.
    pub received_at: u64,
}

/// The epoch validity rule, in integer arithmetic. `elapsed` is the
/// client-side time since the previous epoch arrived, in seconds.
/// A new epoch is valid iff it did not go backwards by more than one
/// second, and the server clock advanced at the same rate as the
/// client clock, within the tolerances of RFC 6887.
pub open spec fn spec_epoch_valid(e_now: u32, e_prev: u32, elapsed: u32) -> bool {
    let server_delta = if e_now >= e_prev {
        e_now - e_prev
    } else {
        0
    };
    &&& e_now + 1 >= e_prev
    &&& !(elapsed + 2 < server_delta - server_delta / 16)
    &&& !(server_delta + 2 < elapsed - elapsed / 16)
}

/// The epoch validator is monotone: whenever it accepts a new epoch
/// against a stored one, the new epoch is at least the stored one
/// minus the one-second reordering allowance.
pub proof fn lemma_epoch_monotone(e_now: u32, e_prev: u32, elapsed: u32)
    requires
        spec_epoch_valid(e_now, e_prev, elapsed),
    ensures
        e_now + 1 >= e_prev,
{
}

impl Epoch {
    /// Validates this newly received epoch against the `previous`
    /// one and the client-side time `elapsed` since it arrived, in
    /// seconds.
    ///
    /// The check does not cover the first epoch a client receives:
    /// that one is valid by itself.
    pub fn validate_epoch(&self, previous: Epoch, elapsed: u32) -> (r: bool)
        ensures
            r == spec_epoch_valid(self.0, previous.0, elapsed),
    {
        let e_now = self.0;
        let e_prev = previous.0;
        if e_prev >= 1 && e_now < e_prev - 1 {
            return false;
        }
        let server_delta: u64 = if e_now >= e_prev {
            (e_now - e_prev) as u64
        } else {
            0
        };
        let client_delta: u64 = elapsed as u64;
        !(client_delta + 2 < server_delta - server_delta / 16 || server_delta + 2 < client_delta
            - client_delta / 16)
    }
}

} // verus!
