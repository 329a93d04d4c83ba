//! VPC prefix linknet statistics.

use fleetcore::prefix::{IpFamily, IpPrefix};
use fleetcore::vpc::{linknet_stats, update_stats, VpcPrefix, VpcPrefixStatus};

fn vpc_prefix(prefix: IpPrefix) -> VpcPrefix {
    VpcPrefix {
        id: 1,
        vpc_id: 2,
        name: "edge".to_string(),
        prefix,
        last_used_prefix: None,
        status: VpcPrefixStatus {
            total_31_segments: 0,
            available_31_segments: 0,
            total_linknet_segments: 0,
            available_linknet_segments: 0,
        },
    }
}

#[test]
fn vpc_linknet_stats_for_120_v6() {
    // 2001:db8::/120 with three linknets used: 2^(127-120) = 128 in total
    let mut p = vpc_prefix(IpPrefix { base: 0x20010db8u128 << 96, len: 120, family: IpFamily::V6 });
    update_stats(&mut p, 3);
    assert_eq!(p.status.total_linknet_segments, 128);
    assert_eq!(p.status.available_linknet_segments, 125);
}

#[test]
fn vpc_linknet_stats_saturate_for_48_v6() {
    // a /48 would hold 2^79 linknets, far past what the gauge can carry
    let mut p = vpc_prefix(IpPrefix { base: 0x20010db8u128 << 96, len: 48, family: IpFamily::V6 });
    update_stats(&mut p, 3);
    assert_eq!(p.status.total_linknet_segments, u64::MAX);
    assert_eq!(p.status.available_linknet_segments, u64::MAX - 3);
}

#[test]
fn vpc_linknet_stats_for_v4() {
    // 10.0.0.0/24: 2^(31-24) = 128 possible /31 subnets
    let mut p = vpc_prefix(IpPrefix { base: 0x0a000000, len: 24, family: IpFamily::V4 });
    update_stats(&mut p, 5);
    assert_eq!(p.status.total_linknet_segments, 128);
    assert_eq!(p.status.available_linknet_segments, 123);
    // the legacy IPv4 gauges follow the same count
    assert_eq!(p.status.total_31_segments, 128);
    assert_eq!(p.status.available_31_segments, 123);
}

#[test]
fn linknet_math_is_exact() {
    assert_eq!(linknet_stats(24, IpFamily::V4, 0), (128, 128));
    assert_eq!(linknet_stats(30, IpFamily::V4, 1), (2, 1));
    assert_eq!(linknet_stats(126, IpFamily::V6, 0), (2, 2));
    assert_eq!(linknet_stats(63, IpFamily::V6, 7), (u64::MAX, u64::MAX - 7));
    // more used than exist: available saturates at zero
    assert_eq!(linknet_stats(30, IpFamily::V4, 9), (2, 0));
}

#[test]
fn linknet_sized_prefix_keeps_old_stats() {
    let mut p = vpc_prefix(IpPrefix { base: 0x0a000000, len: 31, family: IpFamily::V4 });
    update_stats(&mut p, 3);
    assert_eq!(p.status.total_linknet_segments, 0);
    assert_eq!(p.status.available_linknet_segments, 0);
}
