//! Rounding helpers for buffer layouts.
use vstd::prelude::*;
use vstd::arithmetic::power2::pow2;

verus! {

/// Size of a cache line in bytes.
pub const CACHE_LINE_SZ: u64 = 64;

/// Size of the global route header that prefixes every datagram.
pub const GRH_SZ: u64 = 40;

/// `f` is two to the power of an exponent below 63.
pub open spec fn is_pow2(f: int) -> bool {
    exists|k: nat| k < 63 && #[trigger] pow2(k) == f
}

/// The smallest multiple of `f` that is at least `n`.
pub open spec fn round_up_spec(n: u64, f: u64) -> int {
    if n % f == 0 { n as int } else { (n as int / f as int + 1) * f as int }
}

/// Rounds `num` up with the mask `-factor`; a zero factor leaves `num` as it is.
///
/// For a power-of-two factor this is the smallest multiple of `factor` that
/// is at least `num`.
pub fn round_up(num: u64, factor: i64) -> (r: u64)
    requires
        factor >= 0,
        num as int + factor as int - 1 <= u64::MAX as int,
    ensures
        factor == 0 ==> r == num,
        factor > 0 ==> r == ((num + factor as u64 - 1) as u64) & ((-factor) as u64),
        is_pow2(factor as int) ==> r as int == round_up_spec(num, factor as u64),
        factor == CACHE_LINE_SZ ==> r as int == round_up_spec(num, CACHE_LINE_SZ),
{
    if factor == 0 {
        proof {
            if is_pow2(0) {
                let k = choose|k: nat| k < 63 && #[trigger] pow2(k) == 0;
                vstd::arithmetic::power2::lemma_pow2_pos(k);
            }
        }
        return num;
    }
    let sum: u64 = num + (factor as u64 - 1);
    let neg: i64 = (-factor) as i64;
    let signed: i64 = #[verifier::truncate] (sum as i64);
    let masked: i64 = signed & neg;
    let r: u64 = #[verifier::truncate] (masked as u64);
    assert(r == sum & (neg as u64)) by (bit_vector)
        requires signed == sum as i64, masked == signed & neg, r == masked as u64;
    proof {
        if factor == CACHE_LINE_SZ {
            lemma_cache_line_mask(num);
        }
        if is_pow2(factor as int) {
            let k = choose|k: nat| k < 63 && #[trigger] pow2(k) == factor as int;
            lemma_pow2_mask(num, factor, k);
        }
    }
    r
}

/// Size of a datagram message slot for `payload` bytes: a short payload gets
/// one cache line, a longer one is rounded up to whole cache lines; the route
/// header is then taken off, so that header and message together never write
/// a partial cache line at the receiver.
pub fn align_to_cacheline(payload: u64) -> (r: u64)
    requires
        payload as int + CACHE_LINE_SZ - 1 <= u64::MAX as int,
    ensures
        payload <= CACHE_LINE_SZ ==> r == CACHE_LINE_SZ - GRH_SZ,
        payload > CACHE_LINE_SZ ==> r as int == round_up_spec(payload, CACHE_LINE_SZ) - GRH_SZ,
{
    if payload <= CACHE_LINE_SZ {
        CACHE_LINE_SZ - GRH_SZ
    } else {
        let rounded = round_up(payload, CACHE_LINE_SZ as i64);
        assert(rounded >= payload) by (nonlinear_arith)
            requires rounded as int == round_up_spec(payload, 64u64);
        rounded - GRH_SZ
    }
}

proof fn lemma_pow2_mask(n: u64, factor: i64, k: nat)
    requires
        k < 63,
        pow2(k) == factor as int,
        n as int + factor as int - 1 <= u64::MAX as int,
    ensures
        ((n + factor as u64 - 1) as u64) & ((-factor) as u64) == round_up_spec(n, factor as u64),
{
    let f: u64 = factor as u64;
    vstd::bits::lemma_u64_pow2_no_overflow(k);
    vstd::arithmetic::power2::lemma_pow2_pos(k);
    let s: u64 = (n + f - 1) as u64;
    let m: u64 = (f - 1) as u64;
    assert(m == vstd::bits::low_bits_mask(k) as u64);
    vstd::bits::lemma_u64_low_bits_mask_is_mod(s, k);
    assert(s & m == s % f);
    let neg: i64 = (-factor) as i64;
    assert(neg as u64 == !m) by (bit_vector)
        requires factor > 0, neg == (-factor) as i64, m == ((factor as u64) - 1) as u64;
    assert(s & !m == ((s - (s & m)) as u64)) by (bit_vector);
    assert(s - s % f == round_up_spec(n, f)) by (nonlinear_arith)
        requires f > 0, s == n + f - 1;
}

proof fn lemma_cache_line_mask(n: u64)
    requires
        n as int + CACHE_LINE_SZ - 1 <= u64::MAX as int,
    ensures
        ((n + 63) as u64) & ((-64i64) as u64) == round_up_spec(n, CACHE_LINE_SZ),
{
    let s: u64 = (n + 63) as u64;
    assert(s & ((-64i64) as u64) == ((s - s % 64) as u64)) by (bit_vector);
    assert(s - s % 64 == round_up_spec(n, 64)) by (nonlinear_arith)
        requires s == n + 63;
}

} // verus!
