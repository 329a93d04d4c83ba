//! Validation of tenant network configurations and of segment-creation
//! requests.

use fleetcore::engine::validate;
use fleetcore::errors::{AllocationError, ConfigValidationError, RpcConversionError};
use fleetcore::prefix::IpFamily;
use fleetcore::segment::{
    NetworkPrefixCreationRequest, NetworkSegment, NewNetworkSegment,
    NetworkSegmentControllerState, NetworkSegmentCreationRequest, NetworkSegmentType,
};
use fleetcore::version::{ConfigVersion, Versioned};

const VPC_ID: u128 = 0x11609f10c11d110132616293ea0c0100;
const SEGMENT_ID_BASE: u128 = 0x91609f10c91d470da2606293ea0c0000;
const INTERFACE_COUNT: usize = 16;

fn segment_id(idx: usize) -> u128 {
    // ids end in the two decimal digits of the index
    SEGMENT_ID_BASE + ((idx / 10) * 16 + idx % 10) as u128
}

fn create_valid_validation_data() -> Vec<NetworkSegment> {
    let version = ConfigVersion::initial(0);
    (0..INTERFACE_COUNT)
        .map(|idx| NetworkSegment {
            id: segment_id(idx),
            version,
            name: format!("segment-{idx}"),
            subdomain_id: None,
            vpc_id: Some(VPC_ID),
            mtu: 1500,
            created: 0,
            updated: 0,
            deleted: None,
            prefixes: Vec::new(),
            controller_state: Versioned { value: NetworkSegmentControllerState::Ready, version },
            controller_state_outcome: None,
            history: Vec::new(),
            vlan_id: None,
            vni: None,
            segment_type: NetworkSegmentType::Tenant,
            can_stretch: None,
        })
        .collect()
}

#[test]
fn instance_address_segment_validation() {
    let data = create_valid_validation_data();
    let x = validate(&data, INTERFACE_COUNT, &Vec::new());
    assert!(x.is_ok());
}

#[test]
fn validate_missing_segment_in_db_fail() {
    let mut data = create_valid_validation_data();
    data.swap_remove(10);
    assert!(validate(&data, INTERFACE_COUNT, &Vec::new()).is_err());
}

#[test]
fn validate_multiple_vpc_must_fail() {
    let mut data = create_valid_validation_data();
    data[0].vpc_id = Some(0x21609f10c11d110132616293ea0c0199);
    assert!(validate(&data, INTERFACE_COUNT, &Vec::new()).is_err());
}

#[test]
fn validate_missing_vpc_fail() {
    let mut data = create_valid_validation_data();
    data[2].vpc_id = None;
    assert!(validate(&data, INTERFACE_COUNT, &Vec::new()).is_err());
}

#[test]
fn validate_marked_deleted_segment_fail() {
    let mut data = create_valid_validation_data();
    data[12].deleted = Some(1);
    assert!(validate(&data, INTERFACE_COUNT, &Vec::new()).is_err());
}

#[test]
fn validate_not_ready_segment_fail() {
    let mut data = create_valid_validation_data();
    data[9].controller_state.value = NetworkSegmentControllerState::Provisioning;
    assert!(validate(&data, INTERFACE_COUNT, &Vec::new()).is_err());
}

#[test]
fn validate_error_values() {
    let mut data = create_valid_validation_data();
    data[12].deleted = Some(1);
    let r = validate(&data, INTERFACE_COUNT, &Vec::new());
    assert_eq!(
        r,
        Err(AllocationError::InvalidConfiguration(
            ConfigValidationError::NetworkSegmentToBeDeleted(segment_id(12))
        ))
    );
    let r = validate(&create_valid_validation_data(), INTERFACE_COUNT - 1, &Vec::new());
    assert_eq!(
        r,
        Err(AllocationError::InvalidConfiguration(ConfigValidationError::UnknownSegments))
    );
}

#[test]
fn validate_not_ready_allowed_for_vpc_prefix_segments() {
    // a segment created from a VPC prefix is not expected to be ready yet
    let mut data = create_valid_validation_data();
    data[9].controller_state.value = NetworkSegmentControllerState::Provisioning;
    let using = vec![segment_id(9)];
    assert!(validate(&data, INTERFACE_COUNT, &using).is_ok());
}

fn make_test_creation_request(
    prefixes: Vec<NetworkPrefixCreationRequest>,
    segment_type: NetworkSegmentType,
) -> NetworkSegmentCreationRequest {
    NetworkSegmentCreationRequest {
        id: None,
        mtu: Some(1500),
        name: "TEST_SEGMENT".to_string(),
        prefixes,
        subdomain_id: None,
        vpc_id: None,
        segment_type: match segment_type {
            NetworkSegmentType::Tenant => 0,
            NetworkSegmentType::Admin => 1,
            NetworkSegmentType::Underlay => 2,
            NetworkSegmentType::HostInband => 3,
        },
    }
}

fn ipv4_prefix(prefix: &str, gateway: Option<&str>) -> NetworkPrefixCreationRequest {
    NetworkPrefixCreationRequest {
        id: None,
        prefix: prefix.to_string(),
        gateway: gateway.map(|g| g.to_string()),
        reserve_first: 1,
        free_ip_count: 0,
        svi_ip: None,
    }
}

fn ipv6_prefix(prefix: &str) -> NetworkPrefixCreationRequest {
    NetworkPrefixCreationRequest {
        id: None,
        prefix: prefix.to_string(),
        gateway: None,
        reserve_first: 0,
        free_ip_count: 0,
        svi_ip: None,
    }
}

const FRESH_ID: u128 = 7;

#[test]
fn test_ipv6_prefix_accepted() {
    let request = make_test_creation_request(
        vec![ipv6_prefix("2001:db8::/64")],
        NetworkSegmentType::Admin,
    );
    let result = NewNetworkSegment::try_from_request(request, FRESH_ID);
    assert!(result.is_ok(), "IPv6 prefix should be accepted: {result:?}");
    let segment = result.unwrap();
    assert_eq!(segment.prefixes.len(), 1);
    assert!(segment.prefixes[0].prefix.family == IpFamily::V6);
    assert_eq!(segment.prefixes[0].prefix.base, 0x20010db8u128 << 96);
    assert_eq!(segment.prefixes[0].prefix.len, 64);
}

#[test]
fn test_dual_stack_prefixes_accepted() {
    let request = make_test_creation_request(
        vec![
            ipv4_prefix("192.0.2.0/24", Some("192.0.2.1")),
            ipv6_prefix("2001:db8::/64"),
        ],
        NetworkSegmentType::Admin,
    );
    let result = NewNetworkSegment::try_from_request(request, FRESH_ID);
    assert!(result.is_ok(), "Dual-stack should be accepted: {result:?}");
    let segment = result.unwrap();
    assert_eq!(segment.prefixes.len(), 2);
    assert_eq!(segment.prefixes[0].prefix.base, 0xc0000200);
    assert_eq!(segment.prefixes[0].gateway, Some(0xc0000201));
}

#[test]
fn test_ipv6_tenant_prefix_size_validation() {
    // /64 should be allowed for tenant segments
    let request = make_test_creation_request(
        vec![ipv6_prefix("2001:db8::/64")],
        NetworkSegmentType::Tenant,
    );
    assert!(
        NewNetworkSegment::try_from_request(request, FRESH_ID).is_ok(),
        "/64 IPv6 prefix should be allowed for tenant segments"
    );

    // /127 should be rejected for tenant segments
    let request = make_test_creation_request(
        vec![ipv6_prefix("2001:db8::1/127")],
        NetworkSegmentType::Tenant,
    );
    assert!(
        NewNetworkSegment::try_from_request(request, FRESH_ID).is_err(),
        "/127 IPv6 prefix should be rejected for tenant segments"
    );

    // /128 should be rejected for tenant segments
    let request = make_test_creation_request(
        vec![ipv6_prefix("2001:db8::1/128")],
        NetworkSegmentType::Tenant,
    );
    assert!(
        NewNetworkSegment::try_from_request(request, FRESH_ID).is_err(),
        "/128 IPv6 prefix should be rejected for tenant segments"
    );
}

#[test]
fn test_ipv4_tenant_prefix_size_validation_unchanged() {
    // /24 should be allowed
    let request = make_test_creation_request(
        vec![ipv4_prefix("192.0.2.0/24", Some("192.0.2.1"))],
        NetworkSegmentType::Tenant,
    );
    assert!(NewNetworkSegment::try_from_request(request, FRESH_ID).is_ok());

    // /31 should be rejected
    let request = make_test_creation_request(
        vec![ipv4_prefix("192.0.2.0/31", Some("192.0.2.1"))],
        NetworkSegmentType::Tenant,
    );
    assert!(NewNetworkSegment::try_from_request(request, FRESH_ID).is_err());

    // /32 should be rejected
    let request = make_test_creation_request(
        vec![ipv4_prefix("192.0.2.0/32", None)],
        NetworkSegmentType::Tenant,
    );
    assert!(NewNetworkSegment::try_from_request(request, FRESH_ID).is_err());
}

#[test]
fn creation_request_rejects_bad_text_and_empty_prefixes() {
    let request = make_test_creation_request(Vec::new(), NetworkSegmentType::Admin);
    assert!(matches!(
        NewNetworkSegment::try_from_request(request, FRESH_ID),
        Err(RpcConversionError::InvalidArgument(_))
    ));
    let request = make_test_creation_request(
        vec![ipv4_prefix("not-a-network", None)],
        NetworkSegmentType::Admin,
    );
    assert!(matches!(
        NewNetworkSegment::try_from_request(request, FRESH_ID),
        Err(RpcConversionError::InvalidIpAddress(_))
    ));
    let mut request = make_test_creation_request(
        vec![ipv4_prefix("192.0.2.0/24", None)],
        NetworkSegmentType::Admin,
    );
    request.segment_type = 9;
    assert_eq!(
        NewNetworkSegment::try_from_request(request, FRESH_ID),
        Err(RpcConversionError::InvalidNetworkSegmentType(9))
    );
}

#[test]
fn segment_type_labels_round_trip() {
    assert!(NetworkSegmentType::Tenant.is_tenant());
    assert!(NetworkSegmentType::HostInband.is_tenant());
    assert!(!NetworkSegmentType::Admin.is_tenant());
    assert!(!NetworkSegmentType::Underlay.is_tenant());
    for t in [
        NetworkSegmentType::Tenant,
        NetworkSegmentType::Admin,
        NetworkSegmentType::Underlay,
        NetworkSegmentType::HostInband,
    ] {
        assert_eq!(NetworkSegmentType::parse_label(t.label()), Ok(t));
    }
    assert!(NetworkSegmentType::parse_label("underlay").is_err());
    assert_eq!(NetworkSegmentType::try_from_wire(2), Ok(NetworkSegmentType::Underlay));
    assert!(NetworkSegmentType::try_from_wire(17).is_err());
}
