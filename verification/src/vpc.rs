//! VPC prefixes and their linknet statistics.
//!
//! A VPC prefix of length `L` holds `2^(P - L)` linknets, where `P` is 31
//! for IPv4 (two-host /31 linknets) and 127 for IPv6 (/127 linknets). The
//! counts are computed by arithmetic, never by enumerating the prefix
//! space, and saturate at the largest value the status field holds.

use vstd::prelude::*;
use vstd::arithmetic::power2::{lemma2_to64, lemma_pow2_pos, lemma_pow2_strictly_increases, pow2};

use crate::prefix::{pow2_u128, IpFamily, IpPrefix};

verus! {

/// Derived statistics of a VPC prefix.
#[derive(Debug, Clone, Copy, PartialEq, Eq, Structural)]
pub struct VpcPrefixStatus {
    /// IPv4-only /31 counts, kept for backwards compatibility.
    pub total_31_segments: u32,
    pub available_31_segments: u32,
    /// Family-aware linknet counts: /31 for IPv4, /127 for IPv6.
    pub total_linknet_segments: u64,
    pub available_linknet_segments: u64,
}

/// A VPC prefix row.
#[derive(Debug)]
pub struct VpcPrefix {
    pub id: u128,
    pub vpc_id: u128,
    pub name: String,
    pub prefix: IpPrefix,
    pub last_used_prefix: Option<IpPrefix>,
    pub status: VpcPrefixStatus,
}

/// Marker of the VPC prefix table's `id` column.
#[derive(Debug, Clone, Copy)]
pub struct IdColumn;

impl crate::columns::ColumnInfo for IdColumn {
    fn column_name(&self) -> (r: &'static str)
        ensures
            r@ == "id"@,
    {
        "id"
    }
}

/// The linknet prefix length of a family: /31 for IPv4 (RFC 3021), /127
/// for IPv6 (RFC 6164).
pub open spec fn spec_linknet_len(family: IpFamily) -> int {
    if family is V4 {
        31
    } else {
        127
    }
}

/// `2^shift` saturated at `u64::MAX`.
pub open spec fn spec_total_linknets(shift: int) -> int {
    if shift >= 64 {
        u64::MAX as int
    } else {
        pow2(shift as nat) as int
    }
}

/// How many linknets a VPC prefix of the given length holds, and how many
/// are left once `used_count` of them are taken; both saturated at the
/// bounds of a `u64`.
pub fn linknet_stats(prefix_len: u8, family: IpFamily, used_count: u64) -> (r: (u64, u64))
    requires
        prefix_len < spec_linknet_len(family),
    ensures
        r.0 == spec_total_linknets(spec_linknet_len(family) - prefix_len),
        r.1 == if r.0 >= used_count {
            r.0 - used_count
        } else {
            0
        },
{
    let linknet_len: u8 = if family.bits() == 32 {
        31
    } else {
        127
    };
    let shift = linknet_len - prefix_len;
    let total: u64 = if shift >= 64 {
        u64::MAX
    } else {
        proof {
            lemma2_to64();
            if (shift as nat) < 64 {
                lemma_pow2_strictly_increases(shift as nat, 64);
            }
        }
        pow2_u128(shift) as u64
    };
    let available = if total >= used_count {
        total - used_count
    } else {
        0
    };
    (total, available)
}

/// Recompute the statistics of one VPC prefix from the number of network
/// prefixes currently carved out of it.
pub fn update_stats(p: &mut VpcPrefix, used_count: u64)
    requires
        old(p).prefix.wf(),
    ensures
        final(p).id == old(p).id,
        final(p).vpc_id == old(p).vpc_id,
        final(p).name == old(p).name,
        final(p).prefix == old(p).prefix,
        final(p).last_used_prefix == old(p).last_used_prefix,
        old(p).prefix.len < spec_linknet_len(old(p).prefix.family) ==> {
            let total = spec_total_linknets(
                spec_linknet_len(old(p).prefix.family) - old(p).prefix.len,
            );
            &&& final(p).status.total_linknet_segments == total
            &&& final(p).status.available_linknet_segments == if total >= used_count {
                total - used_count
            } else {
                0
            }
        },
        old(p).prefix.len >= spec_linknet_len(old(p).prefix.family) ==> final(p).status
            == old(p).status,
        // the legacy gauges are IPv4-only and untouched on other input
        !(old(p).prefix.family is V4 && old(p).prefix.len < 31) ==> final(p).status.total_31_segments
            == old(p).status.total_31_segments && final(p).status.available_31_segments == old(
            p,
        ).status.available_31_segments,
        // legacy IPv4 /31 counts
        old(p).prefix.family is V4 && old(p).prefix.len < 31 ==> {
            &&& final(p).status.total_31_segments == pow2((31 - old(p).prefix.len) as nat)
            &&& final(p).status.available_31_segments == if final(p).status.total_31_segments
                >= used_count {
                final(p).status.total_31_segments - used_count
            } else {
                0
            }
        },
{
    if p.prefix.family.bits() == 32 && p.prefix.len < 31 {
        proof {
            lemma2_to64();
            lemma_pow2_pos((31 - p.prefix.len) as nat);
            if ((31 - p.prefix.len) as nat) < 31 {
                lemma_pow2_strictly_increases((31 - p.prefix.len) as nat, 31);
            }
        }
        let total_31: u32 = pow2_u128(31 - p.prefix.len) as u32;
        let available_31: u32 = if total_31 as u64 >= used_count {
            (total_31 as u64 - used_count) as u32
        } else {
            0
        };
        p.status.total_31_segments = total_31;
        p.status.available_31_segments = available_31;
    }
    let linknet_len: u8 = if p.prefix.family.bits() == 32 {
        31
    } else {
        127
    };
    if p.prefix.len < linknet_len {
        let (total, available) = linknet_stats(p.prefix.len, p.prefix.family, used_count);
        p.status.total_linknet_segments = total;
        p.status.available_linknet_segments = available;
    }
}

} // verus!
