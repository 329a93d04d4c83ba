//! Model of IP addresses and CIDR prefixes.
//!
//! An address is held as a `u128` (an IPv4 address occupies the low 32 bits).
//! A prefix is an aligned block of addresses: a base address, a prefix length
//! and a family. The block covers `2^(bits - len)` addresses starting at the
//! base, and a well-formed prefix has its base aligned to the block size.

use vstd::prelude::*;
use vstd::arithmetic::power2::{
    lemma2_to64, lemma_pow2_adds, lemma_pow2_pos, lemma_pow2_strictly_increases, pow2,
};

verus! {

/// Address family of a prefix or address.
#[derive(Debug, Clone, Copy, PartialEq, Eq, Structural)]
pub enum IpFamily {
    V4,
    V6,
}

impl IpFamily {
    /// Number of bits in an address of this family.
    pub open spec fn spec_bits(self) -> int {
        if self is V4 {
            32
        } else {
            128
        }
    }

    pub fn bits(&self) -> (r: u8)
        ensures
            r == self.spec_bits(),
    {
        match self {
            IpFamily::V4 => 32,
            IpFamily::V6 => 128,
        }
    }
}

/// A CIDR prefix: an aligned block of `2^(bits - len)` addresses.
#[derive(Debug, Clone, Copy, PartialEq, Eq, Structural)]
pub struct IpPrefix {
    pub base: u128,
    pub len: u8,
    pub family: IpFamily,
}

impl IpPrefix {
    /// Number of addresses covered by the prefix.
    pub open spec fn spec_size(self) -> int {
        pow2((self.family.spec_bits() - self.len) as nat) as int
    }

    /// The last address of the block (the IPv4 broadcast address).
    pub open spec fn spec_last(self) -> int {
        self.base + self.spec_size() - 1
    }

    /// Well-formed: the length fits the family, the base is aligned to the
    /// block size, and the block lies within the family's address space.
    pub open spec fn wf(self) -> bool {
        &&& self.len <= self.family.spec_bits()
        &&& self.base as int % self.spec_size() == 0
        &&& self.spec_last() < pow2(self.family.spec_bits() as nat)
    }

    /// Whether an address lies inside the block.
    pub open spec fn spec_contains(self, addr: int) -> bool {
        self.base <= addr <= self.spec_last()
    }

    /// Whether another block lies entirely inside this one.
    pub open spec fn spec_contains_prefix(self, other: IpPrefix) -> bool {
        self.base <= other.base && other.spec_last() <= self.spec_last()
    }

    /// Whether two blocks share at least one address.
    pub open spec fn spec_overlaps(self, other: IpPrefix) -> bool {
        self.base <= other.spec_last() && other.base <= self.spec_last()
    }

    /// Number of addresses covered, saturated at `u128::MAX` (only a /0
    /// IPv6 prefix saturates).
    pub fn size_saturating(&self) -> (r: u128)
        requires
            self.wf(),
        ensures
            self.spec_size() <= u128::MAX ==> r == self.spec_size(),
            self.spec_size() > u128::MAX ==> r == u128::MAX,
    {
        proof {
            pow2_128_facts();
            let e = (self.family.spec_bits() - self.len) as nat;
            if e < 128 {
                lemma_pow2_strictly_increases(e, 128);
            }
        }
        let bits = self.family.bits();
        if self.len == 0 && bits == 128 {
            u128::MAX
        } else {
            pow2_u128(bits - self.len)
        }
    }

    /// The last address of the block.
    pub fn last(&self) -> (r: u128)
        requires
            self.wf(),
        ensures
            r == self.spec_last(),
    {
        proof {
            pow2_128_facts();
            lemma_pow2_pos((self.family.spec_bits() - self.len) as nat);
            if self.family.spec_bits() - self.len < 128 {
                lemma_pow2_strictly_increases((self.family.spec_bits() - self.len) as nat, 128);
            }
            if self.family is V4 {
                lemma_pow2_strictly_increases(32, 128);
            }
            if self.len == 0 && self.family is V6 {
                // the block is the whole space, so the base must be 0
                vstd::arithmetic::div_mod::lemma_small_mod(self.base as nat, pow2(128));
            }
        }
        let s = self.size_saturating();
        if self.len == 0 && self.family.bits() == 128 {
            u128::MAX
        } else {
            self.base + (s - 1)
        }
    }

    /// Whether `addr` lies inside the block.
    pub fn contains(&self, addr: u128) -> (r: bool)
        requires
            self.wf(),
        ensures
            r == self.spec_contains(addr as int),
    {
        self.base <= addr && addr <= self.last()
    }

    /// Runtime check of [`Self::wf`].
pub fn is_well_formed(&self) -> (r: bool)
        ensures
            r == self.wf(),
    {
    proof {
        crate::prefix::pow2_128_facts();
        vstd::arithmetic::power2::lemma2_to64();
    }
    let bits = self.family.bits();
    if self.len > bits {
        return false;
    }
    proof {
        vstd::arithmetic::power2::lemma_pow2_pos((self.family.spec_bits() - self.len) as nat);
        if self.family.spec_bits() - self.len < 128 {
            vstd::arithmetic::power2::lemma_pow2_strictly_increases(
                (self.family.spec_bits() - self.len) as nat,
                128,
            );
        }
    }
    if self.len == 0 && bits == 128 {
        // the whole space: well-formed exactly when the base is zero
        proof {
            if self.base == 0 {
                vstd::arithmetic::div_mod::lemma_small_mod(
                    0nat,
                    vstd::arithmetic::power2::pow2(128),
                );
            } else {
                vstd::arithmetic::div_mod::lemma_small_mod(
                    self.base as nat,
                    vstd::arithmetic::power2::pow2(128),
                );
            }
        }
        return self.base == 0;
    }
    let size = crate::prefix::pow2_u128(bits - self.len);
    let aligned = self.base % size == 0;
    if !aligned {
        return false;
    }
    // the last address must stay inside the family's address space
    if bits == 32 {
        if self.base >= 0x1_0000_0000 {
            return false;
        }
        proof {
            vstd::arithmetic::power2::lemma_pow2_adds(
                self.len as nat,
                (self.family.spec_bits() - self.len) as nat,
            );
            vstd::arithmetic::mul::lemma_mul_is_commutative(
                vstd::arithmetic::power2::pow2(self.len as nat) as int,
                size as int,
            );
            vstd::arithmetic::div_mod::lemma_mod_multiples_basic(
                vstd::arithmetic::power2::pow2(self.len as nat) as int,
                size as int,
            );
            vstd::arithmetic::div_mod::lemma_fundamental_div_mod(self.base as int, size as int);
            crate::netparse::lemma_block_within(
                self.base as int,
                size as int,
                vstd::arithmetic::power2::pow2(32) as int,
            );
        }
        self.base + (size - 1) < 0x1_0000_0000
    } else {
        proof {
            vstd::arithmetic::power2::lemma_pow2_adds(
                self.len as nat,
                (self.family.spec_bits() - self.len) as nat,
            );
            vstd::arithmetic::mul::lemma_mul_is_commutative(
                vstd::arithmetic::power2::pow2(self.len as nat) as int,
                size as int,
            );
            vstd::arithmetic::div_mod::lemma_mod_multiples_basic(
                vstd::arithmetic::power2::pow2(self.len as nat) as int,
                size as int,
            );
            vstd::arithmetic::div_mod::lemma_fundamental_div_mod(self.base as int, size as int);
            crate::netparse::lemma_block_within(
                self.base as int,
                size as int,
                vstd::arithmetic::power2::pow2(128) as int,
            );
        }
        true
    }
}

    /// Whether `other` lies entirely inside this block.
    pub fn contains_prefix(&self, other: &IpPrefix) -> (r: bool)
        requires
            self.wf(),
            other.wf(),
        ensures
            r == self.spec_contains_prefix(*other),
    {
        self.base <= other.base && other.last() <= self.last()
    }

    /// Whether the two blocks share an address.
    pub fn overlaps(&self, other: &IpPrefix) -> (r: bool)
        requires
            self.wf(),
            other.wf(),
        ensures
            r == self.spec_overlaps(*other),
    {
        self.base <= other.last() && other.base <= self.last()
    }
}

/// The first denied pair: a deny-list prefix sharing addresses with an IPv4
/// site fabric prefix. The deny list is IPv4-only, so IPv6 fabric prefixes
/// are never checked. A configuration with such a pair is refused at
/// startup.
pub fn find_denied_overlap(
    deny_prefixes: &Vec<IpPrefix>,
    site_fabric_prefixes: &Vec<IpPrefix>,
) -> (r: Option<(usize, usize)>)
    requires
        forall|i: int|
            0 <= i < deny_prefixes@.len() ==> (#[trigger] deny_prefixes@[i]).wf()
                && deny_prefixes@[i].family is V4,
        forall|j: int|
            0 <= j < site_fabric_prefixes@.len() ==> (#[trigger] site_fabric_prefixes@[j]).wf(),
    ensures
        match r {
            Some((i, j)) => 0 <= i < deny_prefixes@.len() && 0 <= j
                < site_fabric_prefixes@.len() && site_fabric_prefixes@[j as int].family is V4
                && deny_prefixes@[i as int].spec_overlaps(site_fabric_prefixes@[j as int]),
            None => forall|i: int, j: int|
                0 <= i < deny_prefixes@.len() && 0 <= j < site_fabric_prefixes@.len()
                    && site_fabric_prefixes@[j].family is V4 ==> !(
                #[trigger] deny_prefixes@[i]).spec_overlaps(#[trigger] site_fabric_prefixes@[j]),
        },
{
    let mut i: usize = 0;
    while i < deny_prefixes.len()
        invariant
            forall|k: int|
                0 <= k < deny_prefixes@.len() ==> (#[trigger] deny_prefixes@[k]).wf()
                    && deny_prefixes@[k].family is V4,
            forall|k: int|
                0 <= k < site_fabric_prefixes@.len() ==> (
                #[trigger] site_fabric_prefixes@[k]).wf(),
            i <= deny_prefixes@.len(),
            forall|k: int, l: int|
                0 <= k < i && 0 <= l < site_fabric_prefixes@.len()
                    && site_fabric_prefixes@[l].family is V4 ==> !(
                #[trigger] deny_prefixes@[k]).spec_overlaps(#[trigger] site_fabric_prefixes@[l]),
        decreases deny_prefixes@.len() - i,
    {
        let mut j: usize = 0;
        while j < site_fabric_prefixes.len()
            invariant
                forall|k: int|
                    0 <= k < deny_prefixes@.len() ==> (#[trigger] deny_prefixes@[k]).wf()
                        && deny_prefixes@[k].family is V4,
                forall|k: int|
                    0 <= k < site_fabric_prefixes@.len() ==> (
                    #[trigger] site_fabric_prefixes@[k]).wf(),
                i < deny_prefixes@.len(),
                j <= site_fabric_prefixes@.len(),
                forall|l: int|
                    0 <= l < j && site_fabric_prefixes@[l].family is V4 ==> !(
                    #[trigger] deny_prefixes@[i as int]).spec_overlaps(
                    #[trigger] site_fabric_prefixes@[l]),
            decreases site_fabric_prefixes@.len() - j,
        {
            let site = &site_fabric_prefixes[j];
            if site.family.bits() == 32 && deny_prefixes[i].overlaps(site) {
                return Some((i, j));
            }
            j = j + 1;
        }
        i = i + 1;
    }
    None
}

/// `2^e` as a `u128`.
pub fn pow2_u128(e: u8) -> (r: u128)
    requires
        e < 128,
    ensures
        r == pow2(e as nat),
{
    proof {
        pow2_128_facts();
        lemma2_to64();
    }
    let mut i: u8 = 0;
    let mut r: u128 = 1;
    while i < e
        invariant
            i <= e < 128,
            r == pow2(i as nat),
        decreases e - i,
    {
        proof {
            pow2_128_facts();
            if (i as nat) + 1 < 128 {
                lemma_pow2_strictly_increases((i + 1) as nat, 128nat);
            }
            assert(pow2((i + 1) as nat) == 2 * pow2(i as nat)) by {
                lemma_pow2_adds(1nat, i as nat);
                lemma2_to64();
            }
        }
        r = r * 2;
        i = i + 1;
    }
    r
}

/// Facts about `pow2` at the edges of the 128-bit space.
pub proof fn pow2_128_facts()
    ensures
        pow2(128) == 0x1_0000_0000_0000_0000_0000_0000_0000_0000,
        pow2(127) == 0x8000_0000_0000_0000_0000_0000_0000_0000,
        pow2(32) == 0x1_0000_0000,
{
    lemma2_to64();
    lemma_pow2_adds(64, 64);
    lemma_pow2_adds(64, 63);
    lemma_pow2_adds(32, 31);
}

} // verus!
