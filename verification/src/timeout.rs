//! Retransmission and renewal timing, per RFC 6887 section 8.1.1 and
//! section 11.2.1.
//!
//! All durations are integers in milliseconds. The random factor the
//! RFC calls RAND is drawn as an integer number of thousandths in
//! [900, 1100], standing for the uniform factor on [0.9, 1.1].

use rand::Rng;
use vstd::prelude::*;

verus! {

/// Initial retransmission time, in milliseconds (3 s).
pub const IRT_MS: u64 = 3000;

/// Maximum retransmission time, in milliseconds (1024 s).
pub const MRT_MS: u64 = 1024000;

/// Maximum retransmission count; 0 means retransmit forever.
pub const MRC: u32 = 0;

/// A cap on the lifetime accepted from a server, in seconds (24 h).
pub const REASONABLE_LIFETIME: u32 = 86400;

/// The least renewal wait the RFC allows, in milliseconds: renewal
/// requests must not be sent less than four seconds apart.
pub const MIN_RENEW_WAIT_MS: u64 = 4000;

/// Relies on rand's `Rng::gen_range` over an inclusive range: the
/// sample lies inside the range; an empty range would panic, so the
/// bounds must be ordered.
#[verifier::external_body]
fn draw_in_range(lo: u64, hi: u64) -> (r: u64)
    requires
        lo <= hi,
    ensures
        lo <= r <= hi,
{
    rand::thread_rng().gen_range(lo..=hi)
}

/// Relies on rand's `random`: 12 bytes drawn from the thread-local
/// generator. Nothing is promised of their values.
#[verifier::external_body]
pub(crate) fn random_nonce() -> [u8; 12] {
    rand::random()
}

/// Draws the factor the RFC calls `1 + RAND`, in thousandths:
/// uniform over [0.9, 1.1].
pub fn opr() -> (r: u64)
    ensures
        900 <= r <= 1100,
{
    draw_in_range(900, 1100)
}

/// `l` halved `k` times, rounding down: the floor of `l / 2^k`.
pub open spec fn half_pow(l: int, k: nat) -> int
    decreases k,
{
    if k == 0 {
        l
    } else {
        half_pow(l, (k - 1) as nat) / 2
    }
}

/// Halving a non-negative value can neither grow it nor make it
/// negative.
pub proof fn lemma_half_pow_bounds(l: int, k: nat)
    requires
        l >= 0,
    ensures
        0 <= half_pow(l, k) <= l,
    decreases k,
{
    if k > 0 {
        lemma_half_pow_bounds(l, (k - 1) as nat);
    }
}

/// Once halving reaches zero it stays there.
proof fn lemma_half_pow_zero(l: int, k: nat, j: nat)
    requires
        half_pow(l, k) == 0,
        k <= j,
    ensures
        half_pow(l, j) == 0,
    decreases j,
{
    if j > k {
        lemma_half_pow_zero(l, k, (j - 1) as nat);
    }
}

/// Computes `half_pow(l, k)`.
fn halve(l: u64, k: u64) -> (r: u64)
    ensures
        r == half_pow(l as int, k as nat),
        r <= l,
{
    proof {
        lemma_half_pow_bounds(l as int, k as nat);
    }
    let mut d: u64 = l;
    let mut i: u64 = 0;
    while i < k && d > 0
        invariant
            i <= k,
            d == half_pow(l as int, i as nat),
        decreases k - i,
    {
        d = d / 2;
        i += 1;
    }
    proof {
        if d == 0 && i < k {
            lemma_half_pow_zero(l as int, i as nat, k as nat);
        }
    }
    d
}

/// The base of the retransmission time for a previous wait `prev`:
/// twice the previous wait, capped at [`MRT_MS`].
pub open spec fn rt_base(prev: u64) -> u64 {
    if prev >= 512000 {
        1024000u64
    } else {
        (2 * prev) as u64
    }
}

/// Draws the initial retransmission time: `(1 + RAND) · 3 s`, so a
/// value in [2.7 s, 3.3 s].
pub fn irt() -> (r: u64)
    ensures
        2700 <= r <= 3300,
{
    let j = opr();
    j * 3
}

/// Draws the next retransmission time from the previous one:
/// `(1 + RAND) · min(2 · prev, MRT)`. The result lies between 0.9
/// and 1.1 times the doubled (and capped) previous wait, up to the
/// rounding of integer division.
pub fn rt(rt_prev: u64) -> (r: u64)
    ensures
        (900 * rt_base(rt_prev)) / 1000 <= r <= (1100 * rt_base(rt_prev)) / 1000,
{
    let base: u64 = if rt_prev >= 512000 {
        1024000
    } else {
        2 * rt_prev
    };
    let j = opr();
    proof {
        assert(900 * base <= j * base && j * base <= 1100 * base) by (nonlinear_arith)
            requires
                900 <= j <= 1100,
        ;
        assert(1100 * base <= 1100 * 1024000) by (nonlinear_arith)
            requires
                base <= 1024000,
        ;
        vstd::arithmetic::div_mod::lemma_div_is_ordered(
            900 * base as int,
            j * base as int,
            1000,
        );
        vstd::arithmetic::div_mod::lemma_div_is_ordered(
            j * base as int,
            1100 * base as int,
            1000,
        );
    }
    let r = (j * base) / 1000;
    r
}

/// The lower end of the renewal window after `times` earlier
/// attempts, for a remaining lifetime `rem`: the RFC's
/// `(1 − 2^{−(times+1)}) · rem`, in integer arithmetic.
pub open spec fn renew_lo(rem: u64, times: u32) -> int {
    rem - half_pow(rem as int, (times + 1) as nat)
}

/// The width of the renewal window after `times` earlier attempts:
/// the RFC's `2^{−(times+3)} · rem`, in integer arithmetic. The
/// windows follow the RFC's progression 1/2..5/8, 3/4..3/4 + 1/16,
/// 7/8..7/8 + 1/32, and so on.
pub open spec fn renew_width(rem: u64, times: u32) -> int {
    half_pow(rem as int, (times + 3) as nat)
}

/// Turns a draw from the renewal window into the wait before the
/// next renewal: the drawn point of the window, or `None` when it
/// comes to less than four seconds, which ends renewal.
pub fn renew_wait_ms(rem: u64, times: u32, draw: u64) -> (r: Option<u64>)
    requires
        draw <= renew_width(rem, times),
    ensures
        r == (if renew_lo(rem, times) + draw >= 4000 {
            Some((renew_lo(rem, times) + draw) as u64)
        } else {
            None::<u64>
        }),
{
    proof {
        lemma_half_pow_bounds(rem as int, (times + 1) as nat);
        lemma_half_pow_bounds(rem as int, (times + 2) as nat);
        lemma_half_pow_bounds(rem as int, (times + 3) as nat);
        assert(half_pow(rem as int, (times + 3) as nat) == half_pow(
            rem as int,
            (times + 2) as nat,
        ) / 2);
        assert(half_pow(rem as int, (times + 2) as nat) == half_pow(
            rem as int,
            (times + 1) as nat,
        ) / 2);
        assert(renew_width(rem, times) <= half_pow(rem as int, (times + 1) as nat));
    }
    let lo = rem - halve(rem, (times as u64) + 1);
    let wait = lo + draw;
    if wait >= 4000 {
        Some(wait)
    } else {
        None
    }
}

/// Draws the wait before the next renewal of a mapping with
/// remaining lifetime `rem` after `times` earlier attempts. The wait
/// lies in the RFC's renewal window; a wait below four seconds ends
/// renewal instead. The first window (`times` = 0) is
/// [rem/2, 5·rem/8].
pub fn renew(rem: u64, times: u32) -> (r: Option<u64>)
    ensures
        (match r {
            Some(w) => renew_lo(rem, times) <= w <= renew_lo(rem, times) + renew_width(
                rem,
                times,
            ) && w >= 4000,
            None => renew_lo(rem, times) < 4000,
        }),
        renew_lo(rem, times) + renew_width(rem, times) < 4000 ==> r is None,
{
    proof {
        lemma_half_pow_bounds(rem as int, (times + 1) as nat);
        lemma_half_pow_bounds(rem as int, (times + 2) as nat);
        lemma_half_pow_bounds(rem as int, (times + 3) as nat);
        assert(half_pow(rem as int, (times + 3) as nat) == half_pow(
            rem as int,
            (times + 2) as nat,
        ) / 2);
        assert(half_pow(rem as int, (times + 2) as nat) == half_pow(
            rem as int,
            (times + 1) as nat,
        ) / 2);
        assert(renew_width(rem, times) <= half_pow(rem as int, (times + 1) as nat));
    }
    let width = halve(rem, (times as u64) + 3);
    let draw = draw_in_range(0, width);
    renew_wait_ms(rem, times, draw)
}

} // verus!
