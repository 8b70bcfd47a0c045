//! A checked byte-cursor over a received datagram.
//!
//! [`Deserializer`] walks a borrowed byte slice front to back; every
//! advance is bounds-checked and returns the exact bytes it consumed.
//! The [`Deserialize`] trait reads the primitive field types of PCP
//! packets through it.

use vstd::prelude::*;

use crate::parsing_error::ParsingError;
use crate::wire::{be16_val, be32_val, read_be16, read_be32, read_u8};

verus! {

/// A cursor over the unread remainder of a byte slice.
pub struct Deserializer<'a> {
    /// The unread bytes.
    pub data: &'a [u8],
}

impl<'a> Deserializer<'a> {
    /// Starts a cursor over the whole slice.
    pub fn new(s: &'a [u8]) -> (r: Deserializer<'a>)
        ensures
            r.data@ == s@,
    {
        Deserializer { data: s }
    }

    /// Whether every byte has been consumed.
    pub fn is_empty(&self) -> (r: bool)
        ensures
            r <==> self.data@.len() == 0,
    {
        self.data.is_empty()
    }

    /// Consumes `by` bytes and discards them, for reserved fields.
    pub fn skip(&mut self, by: usize) -> (r: Result<(), ParsingError>)
        ensures
            (match r {
                Ok(()) => by <= old(self).data@.len() && final(self).data@ == old(self).data@.skip(by as int),
                Err(e) => by > old(self).data@.len() && e == ParsingError::InvalidSliceLength(
                    old(self).data@.len() as usize,
                ) && final(self).data@ == old(self).data@,
            }),
    {
        match self.advance(by) {
            Ok(_) => Ok(()),
            Err(e) => Err(e),
        }
    }

    /// Consumes `by` bytes and returns them; fails without moving
    /// when fewer are left.
    pub fn advance(&mut self, by: usize) -> (r: Result<&'a [u8], ParsingError>)
        ensures
            (match r {
                Ok(taken) => by <= old(self).data@.len() && taken@ == old(self).data@.take(
                    by as int,
                ) && final(self).data@ == old(self).data@.skip(by as int),
                Err(e) => by > old(self).data@.len() && e == ParsingError::InvalidSliceLength(
                    old(self).data@.len() as usize,
                ) && final(self).data@ == old(self).data@,
            }),
    {
        let n = self.data.len();
        if by > n {
            return Err(ParsingError::InvalidSliceLength(n));
        }
        let taken = vstd::slice::slice_subrange(self.data, 0, by);
        self.data = vstd::slice::slice_subrange(self.data, by, n);
        proof {
            assert(taken@ =~= old(self).data@.take(by as int));
            assert(self.data@ =~= old(self).data@.skip(by as int));
        }
        Ok(taken)
    }

    /// Consumes up to `by` bytes: everything that is left when fewer
    /// remain.
    pub fn advance_at_most(&mut self, by: usize) -> (r: &'a [u8])
        ensures
            ({
                let k = if by <= old(self).data@.len() {
                    by as int
                } else {
                    old(self).data@.len() as int
                };
                r@ == old(self).data@.take(k) && final(self).data@ == old(self).data@.skip(k)
            }),
    {
        let n = self.data.len();
        let k = if by <= n {
            by
        } else {
            n
        };
        match self.advance(k) {
            Ok(taken) => taken,
            Err(_) => vstd::pervasive::unreached(),
        }
    }

    /// Reads one value of a deserializable type off the front.
    pub fn deserialize<T: Deserialize>(&mut self) -> (r: Result<T, ParsingError>)
        ensures
            (match r {
                Ok(v) => T::wire_len() <= old(self).data@.len() && T::value_of(
                    old(self).data@.take(T::wire_len() as int),
                ) == v && final(self).data@ == old(self).data@.skip(T::wire_len() as int),
                Err(e) => T::wire_len() > old(self).data@.len() && e
                    == ParsingError::InvalidSliceLength(old(self).data@.len() as usize) && final(self).data@ == old(self).data@,
            }),
    {
        T::deserialize(self)
    }
}

/// A fixed-width field type that can be read off a byte cursor.
pub trait Deserialize: Sized {
    /// Width of the field on the wire, in bytes.
    spec fn wire_len() -> nat;

    /// The value a region of exactly [`Deserialize::wire_len`] bytes
    /// denotes.
    spec fn value_of(s: Seq<u8>) -> Self;

    /// Reads one value off the front of the cursor; fails without
    /// moving when too few bytes are left.
    fn deserialize(data: &mut Deserializer<'_>) -> (r: Result<Self, ParsingError>)
        ensures
            (match r {
                Ok(v) => Self::wire_len() <= old(data).data@.len() && Self::value_of(
                    old(data).data@.take(Self::wire_len() as int),
                ) == v && final(data).data@ == old(data).data@.skip(Self::wire_len() as int),
                Err(e) => Self::wire_len() > old(data).data@.len() && e
                    == ParsingError::InvalidSliceLength(old(data).data@.len() as usize) && final(data).data@ == old(data).data@,
            }),
    ;
}

impl Deserialize for u8 {
    open spec fn wire_len() -> nat {
        1
    }

    open spec fn value_of(s: Seq<u8>) -> u8 {
        s[0]
    }

    fn deserialize(data: &mut Deserializer<'_>) -> (r: Result<u8, ParsingError>) {
        let taken = data.advance(1)?;
        Ok(read_u8(taken, 0))
    }
}

impl Deserialize for u16 {
    open spec fn wire_len() -> nat {
        2
    }

    open spec fn value_of(s: Seq<u8>) -> u16 {
        be16_val(s[0], s[1])
    }

    fn deserialize(data: &mut Deserializer<'_>) -> (r: Result<u16, ParsingError>) {
        let taken = data.advance(2)?;
        Ok(read_be16(taken, 0))
    }
}

impl Deserialize for u32 {
    open spec fn wire_len() -> nat {
        4
    }

    open spec fn value_of(s: Seq<u8>) -> u32 {
        be32_val(s[0], s[1], s[2], s[3])
    }

    fn deserialize(data: &mut Deserializer<'_>) -> (r: Result<u32, ParsingError>) {
        let taken = data.advance(4)?;
        Ok(read_be32(taken, 0))
    }
}

} // verus!
