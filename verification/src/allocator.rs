//! Free-block search inside one network prefix.
//!
//! The allocation window of a prefix skips its first `num_reserved`
//! addresses, always excludes the network address, and for IPv4 prefixes
//! shorter than /31 excludes the broadcast address. Within the window the
//! engine hands out the lowest aligned block of the requested length that is
//! disjoint from every used prefix and contains no busy address.

use vstd::prelude::*;
use vstd::arithmetic::div_mod::{
    lemma_fundamental_div_mod, lemma_mod_multiples_basic,
};
use vstd::arithmetic::mul::lemma_mul_is_distributive_add;
use vstd::arithmetic::power2::{lemma2_to64, lemma_pow2_pos, lemma_pow2_strictly_increases, pow2};

use crate::prefix::{pow2_u128, IpFamily, IpPrefix};

verus! {

/// Size of a block of the requested length, in addresses.
pub open spec fn cand_size(family: IpFamily, req_len: int) -> int {
    pow2((family.spec_bits() - req_len) as nat) as int
}

/// First address of the allocation window (inclusive): the first
/// `num_reserved` addresses are skipped and the network address is never
/// handed out.
pub open spec fn window_low(p: IpPrefix, num_reserved: int) -> int {
    p.base + if num_reserved > 1 {
        num_reserved
    } else {
        1
    }
}

/// Last address of the allocation window (inclusive): for IPv4 prefixes
/// shorter than /31 the broadcast address is excluded.
pub open spec fn window_high(p: IpPrefix) -> int {
    p.spec_last() - if p.family is V4 && p.len < 31 {
        1int
    } else {
        0int
    }
}

/// Whether the block of the requested length at `base` may be handed out:
/// aligned, inside the window, disjoint from every used prefix, and free of
/// busy addresses.
pub open spec fn is_free_block(
    p: IpPrefix,
    num_reserved: int,
    req_len: int,
    used: Seq<IpPrefix>,
    busy: Seq<u128>,
    base: int,
) -> bool {
    let s = cand_size(p.family, req_len);
    &&& base % s == 0
    &&& window_low(p, num_reserved) <= base
    &&& base + s - 1 <= window_high(p)
    &&& forall|i: int|
        0 <= i < used.len() ==> !(base <= (#[trigger] used[i]).spec_last() && used[i].base <= base
            + s - 1)
    &&& forall|i: int| 0 <= i < busy.len() ==> !(base <= #[trigger] busy[i] <= base + s - 1)
}

/// Whether `base` is the block the engine must choose: free, and no free
/// block starts lower.
pub open spec fn is_lowest_free_block(
    p: IpPrefix,
    num_reserved: int,
    req_len: int,
    used: Seq<IpPrefix>,
    busy: Seq<u128>,
    base: int,
) -> bool {
    &&& is_free_block(p, num_reserved, req_len, used, busy, base)
    &&& forall|b: int| is_free_block(p, num_reserved, req_len, used, busy, b) ==> base <= b
}

/// The lowest multiple of `s` that is `low` or above.
pub open spec fn align_up(low: int, s: int) -> int {
    if low % s == 0 {
        low
    } else {
        low + s - (low % s)
    }
}

proof fn lemma_align_up(low: int, s: int)
    requires
        s > 0,
    ensures
        align_up(low, s) % s == 0,
        low <= align_up(low, s) < low + s,
{
    lemma_fundamental_div_mod(low, s);
    if low % s != 0 {
        let q = low / s;
        assert(align_up(low, s) == s * (q + 1)) by {
            lemma_mul_is_distributive_add(s, q, 1);
        }
        lemma_mod_multiples_basic(q + 1, s);
    }
}

/// Any aligned value at or above `low` is at or above `align_up(low, s)`.
proof fn lemma_aligned_ge(low: int, s: int, b: int)
    requires
        s > 0,
        b % s == 0,
        b >= low,
    ensures
        b >= align_up(low, s),
{
    lemma_fundamental_div_mod(low, s);
    lemma_fundamental_div_mod(b, s);
    vstd::arithmetic::div_mod::lemma_mod_bound(low, s);
    if low % s != 0 {
        let q = low / s;
        let k = b / s;
        let r = low % s;
        assert(b >= low + s - r) by (nonlinear_arith)
            requires
                s > 0,
                0 < r < s,
                b == s * k,
                low == s * q + r,
                b >= low,
        ;
    }
}

/// Two aligned values less than one step apart are equal.
proof fn lemma_aligned_unique(c: int, b: int, s: int)
    requires
        s > 0,
        c % s == 0,
        b % s == 0,
        c <= b < c + s,
    ensures
        b == c,
{
    lemma_fundamental_div_mod(c, s);
    lemma_fundamental_div_mod(b, s);
    let kc = c / s;
    let kb = b / s;
    assert(b == c) by (nonlinear_arith)
        requires
            s > 0,
            b == s * kb,
            c == s * kc,
            c <= b < c + s,
    ;
}

/// The address recorded for an instance from its assigned block: the single
/// address of a host-size block, or the fourth address of a larger block
/// (the second usable of the second linknet half).
pub open spec fn spec_host_ip(a: IpPrefix) -> int {
    if a.spec_size() == 1 {
        a.base as int
    } else {
        a.base + 3
    }
}

/// See [`spec_host_ip`].
pub fn host_ip(a: &IpPrefix) -> (r: u128)
    requires
        a.wf(),
        a.len == a.family.spec_bits() || a.len + 2 <= a.family.spec_bits(),
    ensures
        r == spec_host_ip(*a),
        a.base <= r <= a.spec_last(),
{
    proof {
        crate::prefix::pow2_128_facts();
        lemma2_to64();
        let e = (a.family.spec_bits() - a.len) as nat;
        lemma_pow2_pos(e);
        if e == 0 {
        } else {
            if e > 2 {
                lemma_pow2_strictly_increases(2, e);
            }
        }
    }
    let bits = a.family.bits();
    if a.len == bits {
        a.base
    } else {
        a.base + 3
    }
}

/// Two successful allocations in the same segment never yield overlapping
/// blocks, provided the later one saw the earlier result among the used
/// prefixes — which holds whenever both ran under the address-table lock.
pub proof fn lemma_no_concurrent_address(
    p: IpPrefix,
    nr1: int,
    nr2: int,
    l1: int,
    l2: int,
    used1: Seq<IpPrefix>,
    busy1: Seq<u128>,
    used2: Seq<IpPrefix>,
    busy2: Seq<u128>,
    a: IpPrefix,
    b: IpPrefix,
)
    requires
        is_lowest_free_block(p, nr1, l1, used1, busy1, a.base as int),
        a.family == p.family,
        a.len == l1,
        is_lowest_free_block(p, nr2, l2, used2, busy2, b.base as int),
        b.family == p.family,
        b.len == l2,
        used2.contains(a),
    ensures
        !a.spec_overlaps(b),
{
    let i = choose|i: int| 0 <= i < used2.len() && used2[i] == a;
    assert(!(b.base <= used2[i].spec_last() && used2[i].base <= b.base + cand_size(p.family, l2)
        - 1));
}

/// A handed-out block never touches the reserved range, the network address,
/// or (for IPv4 prefixes shorter than /31) the broadcast address; nor does
/// the host address derived from it.
pub proof fn lemma_reservations_honored(
    p: IpPrefix,
    nr: int,
    l: int,
    used: Seq<IpPrefix>,
    busy: Seq<u128>,
    a: IpPrefix,
)
    requires
        p.wf(),
        is_free_block(p, nr, l, used, busy, a.base as int),
        a.family == p.family,
        a.len == l,
        a.spec_size() == 1 || a.spec_size() >= 4,
    ensures
        a.base >= p.base + nr,
        a.base > p.base,
        a.spec_last() <= window_high(p),
        p.family is V4 && p.len < 31 ==> a.spec_last() < p.spec_last(),
        p.base + nr <= spec_host_ip(a) <= window_high(p),
        spec_host_ip(a) != p.base,
        p.family is V4 && p.len < 31 ==> spec_host_ip(a) != p.spec_last(),
{
    assert(a.spec_last() == a.base + cand_size(p.family, l) - 1);
}

/// Whether the block `[c, c + s - 1]` conflicts with a used prefix or a busy
/// address.
fn block_conflicts(c: u128, s: u128, used: &Vec<IpPrefix>, busy: &Vec<u128>) -> (r: bool)
    requires
        s >= 1,
        c + s - 1 <= u128::MAX,
        forall|i: int| 0 <= i < used@.len() ==> (#[trigger] used@[i]).wf(),
    ensures
        r == !({
            &&& forall|i: int|
                0 <= i < used@.len() ==> !(c <= (#[trigger] used@[i]).spec_last() && used@[i].base
                    <= c + s - 1)
            &&& forall|i: int| 0 <= i < busy@.len() ==> !(c <= #[trigger] busy@[i] <= c + s - 1)
        }),
{
    let c_last: u128 = c + (s - 1);
    let mut i: usize = 0;
    while i < used.len()
        invariant
            i <= used@.len(),
            c_last == c + s - 1,
            forall|j: int| 0 <= j < used@.len() ==> (#[trigger] used@[j]).wf(),
            forall|j: int|
                0 <= j < i ==> !(c <= (#[trigger] used@[j]).spec_last() && used@[j].base <= c_last),
        decreases used@.len() - i,
    {
        let u = &used[i];
        if c <= u.last() && u.base <= c_last {
            return true;
        }
        i = i + 1;
    }
    let mut j: usize = 0;
    while j < busy.len()
        invariant
            j <= busy@.len(),
            c_last == c + s - 1,
            forall|k: int|
                0 <= k < used@.len() ==> !(c <= (#[trigger] used@[k]).spec_last() && used@[k].base
                    <= c_last),
            forall|k: int| 0 <= k < j ==> !(c <= #[trigger] busy@[k] <= c_last),
        decreases busy@.len() - j,
    {
        let b = busy[j];
        if c <= b && b <= c_last {
            return true;
        }
        j = j + 1;
    }
    false
}

/// Find the lowest free block of length `req_len` in `p`, or report that the
/// window holds none.
pub fn find_free_block(
    p: &IpPrefix,
    num_reserved: u32,
    req_len: u8,
    used: &Vec<IpPrefix>,
    busy: &Vec<u128>,
) -> (r: Option<IpPrefix>)
    requires
        p.wf(),
        p.len <= req_len <= p.family.spec_bits(),
        p.family is V6 ==> req_len >= 1,
        forall|i: int| 0 <= i < used@.len() ==> (#[trigger] used@[i]).wf(),
    ensures
        match r {
            Some(a) => {
                &&& a.wf()
                &&& a.family == p.family
                &&& a.len == req_len
                &&& is_lowest_free_block(
                    *p,
                    num_reserved as int,
                    req_len as int,
                    used@,
                    busy@,
                    a.base as int,
                )
            },
            None => forall|b: int|
                !is_free_block(*p, num_reserved as int, req_len as int, used@, busy@, b),
        },
{
    let ghost nr = num_reserved as int;
    let ghost rl = req_len as int;
    let bits = p.family.bits();
    let s: u128 = pow2_u128(bits - req_len);
    proof {
        lemma_pow2_pos((bits - req_len) as nat);
        lemma_pow2_pos((p.family.spec_bits() - p.len) as nat);
        crate::prefix::pow2_128_facts();
        if ((bits - req_len) as nat) < 128 {
            lemma_pow2_strictly_increases((bits - req_len) as nat, 128);
        }
        lemma2_to64();
    }
    let high: u128 = if p.family.bits() == 32 && p.len < 31 {
        proof {
            // the block covers at least four addresses, so the window's top
            // stays at or above the base
            if ((p.family.spec_bits() - p.len) as nat) > 2 {
                lemma_pow2_strictly_increases(2, (p.family.spec_bits() - p.len) as nat);
            }
        }
        p.last() - 1
    } else {
        p.last()
    };
    // first address that may be handed out
    let reserve: u128 = if num_reserved == 0 {
        1
    } else {
        num_reserved as u128
    };
    let low: u128 = match p.base.checked_add(reserve) {
        Some(l) => l,
        None => {
            proof {
                assert forall|b: int| !is_free_block(*p, nr, rl, used@, busy@, b) by {
                    if is_free_block(*p, nr, rl, used@, busy@, b) {
                        assert(b >= window_low(*p, nr));
                        assert(b + cand_size(p.family, rl) - 1 <= window_high(*p));
                    }
                }
            }
            return None;
        },
    };
    if low > high {
        proof {
            assert forall|b: int| !is_free_block(*p, nr, rl, used@, busy@, b) by {
                if is_free_block(*p, nr, rl, used@, busy@, b) {
                    assert(cand_size(p.family, rl) >= 1);
                }
            }
        }
        return None;
    }
    // align the search upward to the block size
    let rem: u128 = low % s;
    let c0: u128 = if rem == 0 {
        low
    } else {
        match low.checked_add(s - rem) {
            Some(c) => c,
            None => {
                proof {
                    lemma_align_up(low as int, s as int);
                    assert forall|b: int| !is_free_block(*p, nr, rl, used@, busy@, b) by {
                        if is_free_block(*p, nr, rl, used@, busy@, b) {
                            lemma_aligned_ge(low as int, s as int, b);
                        }
                    }
                }
                return None;
            },
        }
    };
    proof {
        lemma_align_up(low as int, s as int);
        assert(c0 as int == align_up(low as int, s as int));
    }
    if s - 1 > high || c0 > high - (s - 1) {
        proof {
            assert forall|b: int| !is_free_block(*p, nr, rl, used@, busy@, b) by {
                if is_free_block(*p, nr, rl, used@, busy@, b) {
                    lemma_aligned_ge(low as int, s as int, b);
                }
            }
        }
        return None;
    }
    let limit: u128 = high - (s - 1);
    let mut c: u128 = c0;
    proof {
        assert forall|b: int| is_free_block(*p, nr, rl, used@, busy@, b) implies b >= c0 as int by {
            lemma_aligned_ge(low as int, s as int, b);
        }
    }
    while c <= limit
        invariant
            p.wf(),
            s == cand_size(p.family, rl),
            1 <= s <= u128::MAX,
            nr == num_reserved as int,
            rl == req_len as int,
            p.len <= req_len <= p.family.spec_bits(),
            limit as int == window_high(*p) - (s - 1),
            window_high(*p) <= u128::MAX,
            window_low(*p, nr) <= c as int,
            c as int % s as int == 0,
            forall|i: int| 0 <= i < used@.len() ==> (#[trigger] used@[i]).wf(),
            forall|b: int| is_free_block(*p, nr, rl, used@, busy@, b) ==> b >= c,
        decreases limit as int + s as int - c as int,
    {
        if !block_conflicts(c, s, used, busy) {
            let a = IpPrefix { base: c, len: req_len, family: p.family };
            proof {
                assert(a.spec_size() == s);
                assert(is_free_block(*p, nr, rl, used@, busy@, c as int));
                assert(a.spec_last() <= p.spec_last());
                assert(a.spec_last() < pow2(a.family.spec_bits() as nat));
            }
            return Some(a);
        }
        proof {
            assert forall|b: int| is_free_block(*p, nr, rl, used@, busy@, b) implies b >= c as int
                + s as int by {
                if b < c + s {
                    lemma_aligned_unique(c as int, b, s as int);
                    assert(!is_free_block(*p, nr, rl, used@, busy@, c as int));
                }
            }
        }
        match c.checked_add(s) {
            Some(n) => {
                proof {
                    vstd::arithmetic::div_mod::lemma_mod_add_multiples_vanish(c as int, s as int);
                }
                c = n;
            },
            None => {
                proof {
                    assert forall|b: int| !is_free_block(*p, nr, rl, used@, busy@, b) by {
                        if is_free_block(*p, nr, rl, used@, busy@, b) {
                            assert(b + cand_size(p.family, rl) - 1 <= window_high(*p));
                        }
                    }
                }
                return None;
            },
        }
    }
    proof {
        assert forall|b: int| !is_free_block(*p, nr, rl, used@, busy@, b) by {
            if is_free_block(*p, nr, rl, used@, busy@, b) {
                assert(b >= c);
                assert(b + cand_size(p.family, rl) - 1 <= window_high(*p));
            }
        }
    }
    None
}

} // verus!
