//! IP addresses as they appear on the PCP wire.
//!
//! PCP carries every address as 16 bytes: an IPv6 address, or an IPv4
//! address in its IPv4-mapped form `::ffff:a.b.c.d`.

use vstd::prelude::*;

verus! {

/// A 16-byte IP address in network byte order.
///
/// IPv4 addresses are represented by their IPv4-mapped IPv6 form, as
/// RFC 6887 requires for every address field of a PCP packet.
#[derive(Clone, Copy, Debug, PartialEq, Eq, Hash)]
pub struct Ipv6Address(pub [u8; 16]);

/// Whether a 16-byte address is an IPv4-mapped IPv6 address
/// (`::ffff:a.b.c.d`): ten zero bytes followed by two `0xff` bytes.
pub open spec fn spec_is_v4_mapped(s: Seq<u8>) -> bool {
    &&& (forall|i: int| 0 <= i < 10 ==> s[i] == 0)
    &&& s[10] == 0xff
    &&& s[11] == 0xff
}

impl Ipv6Address {
    /// The all-zero (unspecified) address.
    pub fn unspecified() -> (r: Ipv6Address)
        ensures
            r.0@ =~= Seq::new(16, |i: int| 0u8),
    {
        Ipv6Address([0u8; 16])
    }

    /// Reports whether this is an IPv4-mapped IPv6 address.
    pub fn is_v4_mapped(&self) -> (r: bool)
        ensures
            r == spec_is_v4_mapped(self.0@),
    {
        let mut i: usize = 0;
        while i < 10
            invariant
                i <= 10,
                forall|j: int| 0 <= j < i ==> self.0@[j] == 0,
            decreases 10 - i,
        {
            if self.0[i] != 0 {
                return false;
            }
            i += 1;
        }
        self.0[10] == 0xff && self.0[11] == 0xff
    }
}

/// Byte-wise equality of two addresses.
pub fn addr_eq(a: &Ipv6Address, b: &Ipv6Address) -> (r: bool)
    ensures
        r <==> a.0@ =~= b.0@,
{
    let mut i: usize = 0;
    while i < 16
        invariant
            i <= 16,
            forall|j: int| 0 <= j < i ==> a.0@[j] == b.0@[j],
        decreases 16 - i,
    {
        if a.0[i] != b.0[i] {
            return false;
        }
        i += 1;
    }
    true
}

/// Byte-wise equality of two 12-byte mapping nonces.
pub fn nonce_eq(a: &[u8; 12], b: &[u8; 12]) -> (r: bool)
    ensures
        r <==> a@ =~= b@,
{
    let mut i: usize = 0;
    while i < 12
        invariant
            i <= 12,
            forall|j: int| 0 <= j < i ==> a@[j] == b@[j],
        decreases 12 - i,
    {
        if a[i] != b[i] {
            return false;
        }
        i += 1;
    }
    true
}

} // verus!
