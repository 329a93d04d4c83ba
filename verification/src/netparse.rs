//! The boundary to the `ipnetwork` crate: parsing CIDR text into the plain
//! values the library computes with.

use vstd::prelude::*;
use crate::prefix::{IpFamily, IpPrefix};

verus! {

/// What `ipnetwork::IpNetwork::from_str` yields for a string: the address
/// (IPv4 in the low 32 bits), the prefix length, and whether it is IPv6 —
/// or nothing for text that is no network. A function of the string alone.
pub uninterp spec fn net_of_str(s: Seq<char>) -> Option<(u128, u8, bool)>;

/// Relies on `ipnetwork::IpNetwork::from_str` (with `ip()` and `prefix()`):
/// parses CIDR notation, or a bare address as a full-length network. Its
/// constructor refuses prefix lengths over the family's bit width, and an
/// IPv4 address converts from 32 bits.
#[verifier::external_body]
pub(crate) fn parse_network(s: &str) -> (r: Option<(u128, u8, bool)>)
    ensures
        r == net_of_str(s@),
        r matches Some((a, l, v6)) ==> (v6 ==> l <= 128) && (!v6 ==> l <= 32 && a
            < 0x1_0000_0000),
{
    match s.parse::<ipnetwork::IpNetwork>() {
        Ok(ipnetwork::IpNetwork::V4(n)) => Some((u32::from(n.ip()) as u128, n.prefix(), false)),
        Ok(ipnetwork::IpNetwork::V6(n)) => Some((u128::from(n.ip()), n.prefix(), true)),
        Err(_) => None,
    }
}

/// The aligned prefix a parsed network denotes: the address with its host
/// bits cleared, under the parsed length and family.
pub open spec fn spec_mask_to_prefix(a: u128, l: u8, v6: bool) -> IpPrefix {
    let family = if v6 {
        IpFamily::V6
    } else {
        IpFamily::V4
    };
    let p = IpPrefix { base: a, len: l, family };
    IpPrefix { base: (a - (a as int % p.spec_size())) as u128, len: l, family }
}

/// Clear the host bits of a parsed address, yielding a well-formed prefix.
pub fn mask_to_prefix(a: u128, l: u8, v6: bool) -> (r: IpPrefix)
    requires
        v6 ==> l <= 128,
        !v6 ==> l <= 32 && a < 0x1_0000_0000,
    ensures
        r == spec_mask_to_prefix(a, l, v6),
        r.wf(),
        r.spec_contains(a as int),
{
    let family = if v6 {
        IpFamily::V6
    } else {
        IpFamily::V4
    };
    let p = IpPrefix { base: a, len: l, family };
    let ghost s = p.spec_size();
    proof {
        vstd::arithmetic::power2::lemma_pow2_pos((family.spec_bits() - l) as nat);
        crate::prefix::pow2_128_facts();
        vstd::arithmetic::div_mod::lemma_fundamental_div_mod(a as int, s as int);
        vstd::arithmetic::div_mod::lemma_mod_bound(a as int, s as int);
        vstd::arithmetic::div_mod::lemma_div_pos_is_pos(a as int, s as int);
        vstd::arithmetic::mul::lemma_mul_nonnegative(s as int, a as int / s);
        if l == 0 && v6 {
            vstd::arithmetic::div_mod::lemma_small_mod(
                a as nat,
                vstd::arithmetic::power2::pow2(128),
            );
        }
    }
    let base: u128 = if l == 0 && family.bits() == 128 {
        0
    } else {
        let size: u128 = crate::prefix::pow2_u128(family.bits() - l);
        a - a % size
    };
    let r = IpPrefix { base, len: l, family };
    proof {
        lemma_mask_bounds(a, l, v6, r);
    }
    r
}

proof fn lemma_mask_bounds(a: u128, l: u8, v6: bool, r: IpPrefix)
    requires
        v6 ==> l <= 128,
        !v6 ==> l <= 32 && a < 0x1_0000_0000,
        r == spec_mask_to_prefix(a, l, v6),
    ensures
        r.wf(),
        r.spec_contains(a as int),
{
    let family = if v6 {
        IpFamily::V6
    } else {
        IpFamily::V4
    };
    let p = IpPrefix { base: a, len: l, family };
    let s = p.spec_size();
    let bits = family.spec_bits();
    vstd::arithmetic::power2::lemma_pow2_pos((bits - l) as nat);
    crate::prefix::pow2_128_facts();
    vstd::arithmetic::power2::lemma2_to64();
    vstd::arithmetic::div_mod::lemma_fundamental_div_mod(a as int, s as int);
    vstd::arithmetic::div_mod::lemma_mod_bound(a as int, s as int);
    vstd::arithmetic::div_mod::lemma_div_pos_is_pos(a as int, s as int);
    let q = a as int / s;
    vstd::arithmetic::mul::lemma_mul_nonnegative(s, q);
    vstd::arithmetic::mul::lemma_mul_is_commutative(s, q);
    vstd::arithmetic::div_mod::lemma_mod_multiples_basic(q, s);
    assert(r.base as int == s * q);
    assert(r.base as int % s == 0);
    // the whole block stays inside the family's address space
    vstd::arithmetic::power2::lemma_pow2_adds(l as nat, (bits - l) as nat);
    let blocks = vstd::arithmetic::power2::pow2(l as nat) as int;
    let bound = vstd::arithmetic::power2::pow2(bits as nat) as int;
    vstd::arithmetic::mul::lemma_mul_is_commutative(blocks, s);
    vstd::arithmetic::div_mod::lemma_mod_multiples_basic(blocks, s);
    assert(bound % s == 0);
    lemma_block_within(a as int, s, bound);
    assert(s * q + s <= bound);
}

/// An aligned block containing `a` ends at or before any multiple of its
/// size that lies above `a`.
pub proof fn lemma_block_within(a: int, s: int, bound: int)
    requires
        s > 0,
        0 <= a < bound,
        bound % s == 0,
    ensures
        s * (a / s) + s <= bound,
{
    vstd::arithmetic::div_mod::lemma_fundamental_div_mod(a, s);
    vstd::arithmetic::div_mod::lemma_fundamental_div_mod(bound, s);
    vstd::arithmetic::div_mod::lemma_mod_bound(a, s);
    let q = a / s;
    let qb = bound / s;
    assert(s * q + s <= s * qb) by (nonlinear_arith)
        requires
            s > 0,
            a == s * q + a % s,
            0 <= a % s < s,
            bound == s * qb,
            a < bound,
    ;
}

} // verus!
