//! Big-endian byte-level building blocks of the codec.
//!
//! The wire form of every multi-byte integer of a PCP packet is
//! big-endian. The spec functions here define those byte sequences;
//! the exec functions append them to an output buffer or read them
//! back, each proved against its spec function.

use vstd::prelude::*;

verus! {

broadcast use vstd::array::group_array_axioms;

/// A run of `n` zero bytes, as reserved fields are sent.
pub open spec fn zero_bytes(n: nat) -> Seq<u8> {
    Seq::new(n, |i: int| 0u8)
}

/// The two big-endian bytes of a 16-bit integer.
pub open spec fn be16(x: u16) -> Seq<u8> {
    seq![(x / 256) as u8, (x % 256) as u8]
}

/// The four big-endian bytes of a 32-bit integer.
pub open spec fn be32(x: u32) -> Seq<u8> {
    seq![
        (x / 0x1000000) as u8,
        ((x / 0x10000) % 256) as u8,
        ((x / 0x100) % 256) as u8,
        (x % 256) as u8,
    ]
}

/// The 16-bit integer denoted by two big-endian bytes.
pub open spec fn be16_val(hi: u8, lo: u8) -> u16 {
    (hi * 256 + lo) as u16
}

/// The 32-bit integer denoted by four big-endian bytes.
pub open spec fn be32_val(b0: u8, b1: u8, b2: u8, b3: u8) -> u32 {
    (b0 * 0x1000000 + b1 * 0x10000 + b2 * 0x100 + b3) as u32
}

/// Reading back the two big-endian bytes of `x` gives `x` again.
pub proof fn lemma_be16_round_trip(x: u16)
    ensures
        be16(x).len() == 2,
        be16_val(be16(x)[0], be16(x)[1]) == x,
{
    let hi: u8 = (x / 256) as u8;
    let lo: u8 = (x % 256) as u8;
    assert((hi as u16) * 256 + (lo as u16) == x) by (bit_vector)
        requires
            hi == (x / 256) as u8 && lo == (x % 256) as u8,
    ;
}

/// Reading back the four big-endian bytes of `x` gives `x` again.
pub proof fn lemma_be32_round_trip(x: u32)
    ensures
        be32(x).len() == 4,
        be32_val(be32(x)[0], be32(x)[1], be32(x)[2], be32(x)[3]) == x,
{
    let b0: u8 = (x / 0x1000000) as u8;
    let b1: u8 = ((x / 0x10000) % 256) as u8;
    let b2: u8 = ((x / 0x100) % 256) as u8;
    let b3: u8 = (x % 256) as u8;
    assert((b0 as u32) * 0x1000000 + (b1 as u32) * 0x10000 + (b2 as u32) * 0x100 + (b3 as u32)
        == x) by (bit_vector)
        requires
            b0 == (x / 0x1000000) as u8 && b1 == ((x / 0x10000) % 256) as u8 && b2 == ((x
                / 0x100) % 256) as u8 && b3 == (x % 256) as u8,
    ;
}

/// Encoding the integer two big-endian bytes denote gives those bytes.
pub proof fn lemma_be16_of_val(hi: u8, lo: u8)
    ensures
        be16(be16_val(hi, lo)) =~= seq![hi, lo],
{
    let x: u16 = be16_val(hi, lo);
    assert((x / 256) as u8 == hi && (x % 256) as u8 == lo) by (bit_vector)
        requires
            x == (hi as u16) * 256 + (lo as u16),
    ;
}

/// Encoding the integer four big-endian bytes denote gives those bytes.
pub proof fn lemma_be32_of_val(b0: u8, b1: u8, b2: u8, b3: u8)
    ensures
        be32(be32_val(b0, b1, b2, b3)) =~= seq![b0, b1, b2, b3],
{
    let x: u32 = be32_val(b0, b1, b2, b3);
    assert((x / 0x1000000) as u8 == b0 && ((x / 0x10000) % 256) as u8 == b1 && ((x / 0x100)
        % 256) as u8 == b2 && (x % 256) as u8 == b3) by (bit_vector)
        requires
            x == (b0 as u32) * 0x1000000 + (b1 as u32) * 0x10000 + (b2 as u32) * 0x100 + (
            b3 as u32),
    ;
}

/// Appends one byte to the output buffer.
pub fn push_u8(buf: &mut Vec<u8>, x: u8)
    ensures
        final(buf)@ =~= old(buf)@.push(x),
{
    buf.push(x);
}

/// Appends `n` zero bytes to the output buffer.
pub fn push_zeros(buf: &mut Vec<u8>, n: usize)
    ensures
        final(buf)@ =~= old(buf)@ + zero_bytes(n as nat),
{
    let mut i: usize = 0;
    while i < n
        invariant
            i <= n,
            buf@ =~= old(buf)@ + zero_bytes(i as nat),
        decreases n - i,
    {
        buf.push(0);
        i += 1;
        assert(buf@ =~= old(buf)@ + zero_bytes(i as nat));
    }
}

/// Appends the two big-endian bytes of `x` to the output buffer.
pub fn push_be16(buf: &mut Vec<u8>, x: u16)
    ensures
        final(buf)@ =~= old(buf)@ + be16(x),
{
    buf.push((x / 256) as u8);
    buf.push((x % 256) as u8);
}

/// Appends the four big-endian bytes of `x` to the output buffer.
pub fn push_be32(buf: &mut Vec<u8>, x: u32)
    ensures
        final(buf)@ =~= old(buf)@ + be32(x),
{
    buf.push((x / 0x1000000) as u8);
    buf.push(((x / 0x10000) % 256) as u8);
    buf.push(((x / 0x100) % 256) as u8);
    buf.push((x % 256) as u8);
}

/// Appends a 16-byte address to the output buffer.
pub fn push_addr16(buf: &mut Vec<u8>, a: &[u8; 16])
    ensures
        final(buf)@ =~= old(buf)@ + a@,
{
    let mut i: usize = 0;
    while i < 16
        invariant
            i <= 16,
            buf@ =~= old(buf)@ + a@.take(i as int),
        decreases 16 - i,
    {
        buf.push(a[i]);
        i += 1;
        assert(buf@ =~= old(buf)@ + a@.take(i as int));
    }
    assert(a@.take(16) =~= a@);
}

/// Appends a 12-byte nonce to the output buffer.
pub fn push_nonce(buf: &mut Vec<u8>, a: &[u8; 12])
    ensures
        final(buf)@ =~= old(buf)@ + a@,
{
    let mut i: usize = 0;
    while i < 12
        invariant
            i <= 12,
            buf@ =~= old(buf)@ + a@.take(i as int),
        decreases 12 - i,
    {
        buf.push(a[i]);
        i += 1;
        assert(buf@ =~= old(buf)@ + a@.take(i as int));
    }
    assert(a@.take(12) =~= a@);
}

/// Reads one byte at `i`.
pub fn read_u8(s: &[u8], i: usize) -> (r: u8)
    requires
        i < s@.len(),
    ensures
        r == s@[i as int],
{
    *vstd::slice::slice_index_get(s, i)
}

/// Reads the big-endian 16-bit integer at `i`.
pub fn read_be16(s: &[u8], i: usize) -> (r: u16)
    requires
        i + 2 <= s@.len(),
    ensures
        r == be16_val(s@[i as int], s@[i + 1]),
{
    let n = s.len();
    let hi = read_u8(s, i);
    let lo = read_u8(s, i + 1);
    (hi as u16) * 256 + (lo as u16)
}

/// Reads the big-endian 32-bit integer at `i`.
pub fn read_be32(s: &[u8], i: usize) -> (r: u32)
    requires
        i + 4 <= s@.len(),
    ensures
        r == be32_val(s@[i as int], s@[i + 1], s@[i + 2], s@[i + 3]),
{
    let n = s.len();
    let b0 = read_u8(s, i);
    let b1 = read_u8(s, i + 1);
    let b2 = read_u8(s, i + 2);
    let b3 = read_u8(s, i + 3);
    (b0 as u32) * 0x1000000 + (b1 as u32) * 0x10000 + (b2 as u32) * 0x100 + (b3 as u32)
}

/// Reads the 16-byte address at `i`.
pub fn read_addr16(s: &[u8], i: usize) -> (r: [u8; 16])
    requires
        i + 16 <= s@.len(),
    ensures
        r@ =~= s@.subrange(i as int, i + 16),
{
    let n = s.len();
    let mut out = [0u8; 16];
    let mut k: usize = 0;
    while k < 16
        invariant
            k <= 16,
            i + 16 <= n == s@.len(),
            forall|j: int| 0 <= j < k ==> out@[j] == s@[i + j],
        decreases 16 - k,
    {
        let b = read_u8(s, i + k);
        out.set(k, b);
        k += 1;
    }
    out
}

/// Reads the 12-byte nonce at `i`.
pub fn read_nonce(s: &[u8], i: usize) -> (r: [u8; 12])
    requires
        i + 12 <= s@.len(),
    ensures
        r@ =~= s@.subrange(i as int, i + 12),
{
    let n = s.len();
    let mut out = [0u8; 12];
    let mut k: usize = 0;
    while k < 12
        invariant
            k <= 12,
            i + 12 <= n == s@.len(),
            forall|j: int| 0 <= j < k ==> out@[j] == s@[i + j],
        decreases 12 - k,
    {
        let b = read_u8(s, i + k);
        out.set(k, b);
        k += 1;
    }
    out
}

} // verus!
