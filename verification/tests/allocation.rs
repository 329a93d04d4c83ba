//! The allocation engine: free-block search, reservations, exhaustion,
//! host-inband pickup and SVI allocation.

use fleetcore::allocator::{find_free_block, host_ip};
use fleetcore::prefix::find_denied_overlap;
use fleetcore::engine::{
    allocate, allocate_svi_ip, assign_ips_from_host, AddressTable, InstanceAddress,
    InstanceInterfaceConfig, InstanceNetworkConfig, Machine, MachineInterface, NetworkDetails,
};
use fleetcore::errors::AllocationError;
use fleetcore::prefix::{IpFamily, IpPrefix};
use fleetcore::segment::{
    NetworkPrefix, NetworkSegment, NetworkSegmentControllerState, NetworkSegmentType,
};
use fleetcore::version::{ConfigVersion, Versioned};

const TEN_0_0_0: u128 = 0x0a000000; // 10.0.0.0
const VPC: u128 = 0xa1;
const SEGMENT: u128 = 0xb2;
const PREFIX_ID: u128 = 0xc3;
const INSTANCE: u128 = 0xd4;

fn v4_prefix(base: u128, len: u8) -> IpPrefix {
    IpPrefix { base, len, family: IpFamily::V4 }
}

fn segment_with_prefix(prefix: NetworkPrefix, segment_type: NetworkSegmentType) -> NetworkSegment {
    let version = ConfigVersion::initial(0);
    NetworkSegment {
        id: SEGMENT,
        version,
        name: "test-segment".to_string(),
        subdomain_id: None,
        vpc_id: Some(VPC),
        mtu: 1500,
        created: 0,
        updated: 0,
        deleted: None,
        prefixes: vec![prefix],
        controller_state: Versioned { value: NetworkSegmentControllerState::Ready, version },
        controller_state_outcome: None,
        history: Vec::new(),
        vlan_id: None,
        vni: None,
        segment_type,
        can_stretch: None,
    }
}

fn one_interface_config() -> InstanceNetworkConfig {
    InstanceNetworkConfig {
        interfaces: vec![InstanceInterfaceConfig {
            function_id: 0,
            network_segment_id: Some(SEGMENT),
            network_details: Some(NetworkDetails::NetworkSegment(SEGMENT)),
            ip_addrs: Vec::new(),
            interface_prefixes: Vec::new(),
            network_segment_gateways: Vec::new(),
            host_inband_mac_address: None,
        }],
    }
}

#[test]
fn find_free_block_hands_out_lowest_usable_address() {
    // 10.0.0.0/24 with the first three addresses reserved
    let p = v4_prefix(TEN_0_0_0, 24);
    let r = find_free_block(&p, 3, 32, &Vec::new(), &Vec::new()).unwrap();
    assert_eq!(r.base, TEN_0_0_0 + 3);
    assert_eq!(r.len, 32);
    // without reservations the network address is still skipped
    let r = find_free_block(&p, 0, 32, &Vec::new(), &Vec::new()).unwrap();
    assert_eq!(r.base, TEN_0_0_0 + 1);
}

#[test]
fn find_free_block_skips_used_and_busy() {
    let p = v4_prefix(TEN_0_0_0, 24);
    let used = vec![v4_prefix(TEN_0_0_0 + 1, 32), v4_prefix(TEN_0_0_0 + 3, 32)];
    let busy = vec![TEN_0_0_0 + 2];
    let r = find_free_block(&p, 0, 32, &used, &busy).unwrap();
    assert_eq!(r.base, TEN_0_0_0 + 4);
}

#[test]
fn find_free_block_excludes_v4_broadcast() {
    // 10.0.0.0/30: usable addresses are .1 and .2 only
    let p = v4_prefix(TEN_0_0_0, 30);
    let used = vec![v4_prefix(TEN_0_0_0 + 1, 32)];
    let r = find_free_block(&p, 0, 32, &used, &Vec::new()).unwrap();
    assert_eq!(r.base, TEN_0_0_0 + 2);
    let used = vec![v4_prefix(TEN_0_0_0 + 1, 32), v4_prefix(TEN_0_0_0 + 2, 32)];
    assert!(find_free_block(&p, 0, 32, &used, &Vec::new()).is_none());
}

#[test]
fn find_free_block_no_broadcast_exclusion_for_v6() {
    // 2001:db8::/126 has four usable addresses beyond the network address
    let p = IpPrefix { base: 0x20010db8u128 << 96, len: 126, family: IpFamily::V6 };
    let used = vec![
        IpPrefix { base: (0x20010db8u128 << 96) + 1, len: 128, family: IpFamily::V6 },
        IpPrefix { base: (0x20010db8u128 << 96) + 2, len: 128, family: IpFamily::V6 },
    ];
    let r = find_free_block(&p, 0, 128, &used, &Vec::new()).unwrap();
    assert_eq!(r.base, (0x20010db8u128 << 96) + 3);
}

#[test]
fn find_free_block_aligns_sub_prefixes() {
    // allocate a /30 out of 10.0.0.0/24: the first aligned block past the
    // network address starts at .4
    let p = v4_prefix(TEN_0_0_0, 24);
    let r = find_free_block(&p, 0, 30, &Vec::new(), &Vec::new()).unwrap();
    assert_eq!(r.base, TEN_0_0_0 + 4);
    assert_eq!(r.len, 30);
    // the fourth address of the block is the recorded host address
    assert_eq!(host_ip(&r), TEN_0_0_0 + 7);
}

#[test]
fn ip_allocation_exhaustion() {
    // one /30 v4 prefix, no reservations, SVI at the first usable address,
    // three prior host allocations at the remaining addresses
    let prefix = NetworkPrefix {
        id: PREFIX_ID,
        prefix: v4_prefix(TEN_0_0_0, 30),
        gateway: None,
        num_reserved: 0,
        svi_ip: Some(TEN_0_0_0 + 1),
        num_free_ips: 0,
    };
    let segment = segment_with_prefix(prefix, NetworkSegmentType::Tenant);
    let mut table = AddressTable::new();
    for host in 1..4u128 {
        table.rows.push(InstanceAddress {
            instance_id: 0xee,
            address: TEN_0_0_0 + host,
            segment_id: SEGMENT,
            prefix: v4_prefix(TEN_0_0_0 + host, 32),
        });
    }
    let rows_before = table.rows.len();
    let machine = Machine { id: 0xf0, interfaces: Vec::new() };
    let mut warnings: Vec<u128> = Vec::new();
    let r = allocate(
        &mut table,
        INSTANCE,
        one_interface_config(),
        &machine,
        &vec![segment],
        &Vec::new(),
        &mut warnings,
    );
    assert!(matches!(r, Err(AllocationError::ResourceExhausted)));
    // no row was inserted; the snapshot is untouched
    assert_eq!(table.rows.len(), rows_before);
    assert!(warnings.is_empty());
}

#[test]
fn allocation_assigns_lowest_free_host_address() {
    let prefix = NetworkPrefix {
        id: PREFIX_ID,
        prefix: v4_prefix(TEN_0_0_0, 24),
        gateway: Some(TEN_0_0_0 + 1),
        num_reserved: 2,
        svi_ip: Some(TEN_0_0_0 + 2),
        num_free_ips: 0,
    };
    let segment = segment_with_prefix(prefix, NetworkSegmentType::Tenant);
    let mut table = AddressTable::new();
    let machine = Machine { id: 0xf0, interfaces: Vec::new() };
    let mut warnings: Vec<u128> = Vec::new();
    let cfg = allocate(
        &mut table,
        INSTANCE,
        one_interface_config(),
        &machine,
        &vec![segment],
        &Vec::new(),
        &mut warnings,
    )
    .unwrap();
    // first two reserved, SVI busy: the first free host address is .3
    assert_eq!(cfg.interfaces[0].ip_addrs, vec![(PREFIX_ID, TEN_0_0_0 + 3)]);
    assert_eq!(
        cfg.interfaces[0].interface_prefixes,
        vec![(PREFIX_ID, v4_prefix(TEN_0_0_0 + 3, 32))]
    );
    assert_eq!(table.rows.len(), 1);
    assert_eq!(table.rows[0].instance_id, INSTANCE);
    assert_eq!(table.rows[0].address, TEN_0_0_0 + 3);
    assert_eq!(table.rows[0].segment_id, SEGMENT);
    // a second instance must not receive an overlapping assignment
    let cfg2 = allocate(
        &mut table,
        INSTANCE + 1,
        one_interface_config(),
        &machine,
        &vec![segment_with_prefix(prefix, NetworkSegmentType::Tenant)],
        &Vec::new(),
        &mut warnings,
    )
    .unwrap();
    assert_eq!(cfg2.interfaces[0].ip_addrs, vec![(PREFIX_ID, TEN_0_0_0 + 4)]);
}

#[test]
fn interfaces_with_addresses_are_left_alone() {
    let prefix = NetworkPrefix {
        id: PREFIX_ID,
        prefix: v4_prefix(TEN_0_0_0, 24),
        gateway: None,
        num_reserved: 0,
        svi_ip: None,
        num_free_ips: 0,
    };
    let segment = segment_with_prefix(prefix, NetworkSegmentType::Tenant);
    let mut cfg = one_interface_config();
    cfg.interfaces[0].ip_addrs.push((PREFIX_ID, TEN_0_0_0 + 9));
    let mut table = AddressTable::new();
    let machine = Machine { id: 0xf0, interfaces: Vec::new() };
    let mut warnings: Vec<u128> = Vec::new();
    let out = allocate(&mut table, INSTANCE, cfg, &machine, &vec![segment], &Vec::new(), &mut warnings)
        .unwrap();
    assert_eq!(out.interfaces[0].ip_addrs, vec![(PREFIX_ID, TEN_0_0_0 + 9)]);
    assert_eq!(table.rows.len(), 0);
}

#[test]
fn host_inband_pickup() {
    // the machine has two interfaces; one holds 10.0.0.5/24 inside the
    // segment's 10.0.0.0/24 prefix
    let prefix = NetworkPrefix {
        id: PREFIX_ID,
        prefix: v4_prefix(TEN_0_0_0, 24),
        gateway: Some(TEN_0_0_0 + 1),
        num_reserved: 0,
        svi_ip: None,
        num_free_ips: 0,
    };
    let machine = Machine {
        id: 0xf0,
        interfaces: vec![
            MachineInterface { segment_id: 0x99, mac_address: 0x001122334455, addresses: vec![0x0b000001] },
            MachineInterface {
                segment_id: SEGMENT,
                mac_address: 0x665544332211,
                addresses: vec![TEN_0_0_0 + 5],
            },
        ],
    };
    let mut iface = one_interface_config().interfaces.remove(0);
    let (addrs, multiple) = assign_ips_from_host(&mut iface, &machine, &prefix).unwrap();
    assert!(!multiple);
    assert_eq!(addrs.len(), 1);
    assert_eq!(addrs[0].addr, TEN_0_0_0 + 5);
    assert_eq!(addrs[0].len, 24);
    assert_eq!(iface.ip_addrs, vec![(PREFIX_ID, TEN_0_0_0 + 5)]);
    assert_eq!(iface.network_segment_gateways.len(), 1);
    assert_eq!(iface.network_segment_gateways[0].0, PREFIX_ID);
    assert_eq!(iface.network_segment_gateways[0].1.addr, TEN_0_0_0 + 1);
    assert_eq!(iface.network_segment_gateways[0].1.len, 24);
    assert_eq!(iface.host_inband_mac_address, Some(0x665544332211));
}

#[test]
fn host_inband_pickup_chooses_lowest_of_several() {
    let prefix = NetworkPrefix {
        id: PREFIX_ID,
        prefix: v4_prefix(TEN_0_0_0, 24),
        gateway: None,
        num_reserved: 0,
        svi_ip: None,
        num_free_ips: 0,
    };
    let machine = Machine {
        id: 0xf0,
        interfaces: vec![MachineInterface {
            segment_id: SEGMENT,
            mac_address: 1,
            addresses: vec![TEN_0_0_0 + 9, TEN_0_0_0 + 4, 0x0b000001],
        }],
    };
    let mut iface = one_interface_config().interfaces.remove(0);
    let (addrs, multiple) = assign_ips_from_host(&mut iface, &machine, &prefix).unwrap();
    assert!(multiple);
    assert_eq!(addrs[0].addr, TEN_0_0_0 + 4);
}

#[test]
fn host_inband_errors() {
    let prefix = NetworkPrefix {
        id: PREFIX_ID,
        prefix: v4_prefix(TEN_0_0_0, 24),
        gateway: None,
        num_reserved: 0,
        svi_ip: None,
        num_free_ips: 0,
    };
    // no interface on the segment
    let machine = Machine { id: 0xf0, interfaces: Vec::new() };
    let mut iface = one_interface_config().interfaces.remove(0);
    assert!(matches!(
        assign_ips_from_host(&mut iface, &machine, &prefix),
        Err(AllocationError::InvalidConfiguration(_))
    ));
    // two interfaces on the segment
    let machine = Machine {
        id: 0xf0,
        interfaces: vec![
            MachineInterface { segment_id: SEGMENT, mac_address: 1, addresses: vec![TEN_0_0_0 + 5] },
            MachineInterface { segment_id: SEGMENT, mac_address: 2, addresses: vec![TEN_0_0_0 + 6] },
        ],
    };
    let mut iface = one_interface_config().interfaces.remove(0);
    assert!(matches!(
        assign_ips_from_host(&mut iface, &machine, &prefix),
        Err(AllocationError::FindOneReturnedManyResults(_))
    ));
}

#[test]
fn svi_allocation_takes_first_usable() {
    let prefix = NetworkPrefix {
        id: PREFIX_ID,
        prefix: v4_prefix(TEN_0_0_0, 24),
        gateway: None,
        num_reserved: 0,
        svi_ip: None,
        num_free_ips: 0,
    };
    let segment = segment_with_prefix(prefix, NetworkSegmentType::Tenant);
    let table = AddressTable::new();
    let (prefix_id, ip) = allocate_svi_ip(&table, &segment).unwrap();
    assert_eq!(prefix_id, PREFIX_ID);
    assert_eq!(ip, TEN_0_0_0 + 1);
}

#[test]
fn host_inband_multiple_matches_surface_a_warning() {
    let prefix = NetworkPrefix {
        id: PREFIX_ID,
        prefix: v4_prefix(TEN_0_0_0, 24),
        gateway: None,
        num_reserved: 0,
        svi_ip: None,
        num_free_ips: 0,
    };
    let segment = segment_with_prefix(prefix, NetworkSegmentType::HostInband);
    let machine = Machine {
        id: 0xf0,
        interfaces: vec![MachineInterface {
            segment_id: SEGMENT,
            mac_address: 1,
            addresses: vec![TEN_0_0_0 + 9, TEN_0_0_0 + 4],
        }],
    };
    let mut table = AddressTable::new();
    let mut warnings: Vec<u128> = Vec::new();
    let cfg = allocate(
        &mut table,
        INSTANCE,
        one_interface_config(),
        &machine,
        &vec![segment],
        &Vec::new(),
        &mut warnings,
    )
    .unwrap();
    // the lowest matching address was adopted and the ambiguity was warned about
    assert_eq!(cfg.interfaces[0].ip_addrs, vec![(PREFIX_ID, TEN_0_0_0 + 4)]);
    assert_eq!(warnings, vec![PREFIX_ID]);
    assert_eq!(table.rows.len(), 1);
    assert_eq!(table.rows[0].prefix, v4_prefix(TEN_0_0_0, 24));
    assert_eq!(table.rows[0].address, TEN_0_0_0 + 4);
}

#[test]
fn denied_prefix_overlap_is_found() {
    let deny = vec![v4_prefix(TEN_0_0_0, 24)];
    // 10.0.0.128/25 lies inside a denied range; 11.0.0.0/24 does not
    let clear = vec![v4_prefix(0x0b000000, 24)];
    assert_eq!(find_denied_overlap(&deny, &clear), None);
    let overlapping = vec![v4_prefix(0x0b000000, 24), v4_prefix(TEN_0_0_0 + 128, 25)];
    assert_eq!(find_denied_overlap(&deny, &overlapping), Some((0, 1)));
    // IPv6 fabric prefixes are not checked against the IPv4 deny list
    let v6 = vec![IpPrefix { base: 0, len: 0, family: IpFamily::V6 }];
    assert_eq!(find_denied_overlap(&deny, &v6), None);
}
