//! Network segments: the domain model and the validation that turns a
//! creation request into a new segment.

use vstd::prelude::*;

use crate::controller::StateValue;
use crate::errors::RpcConversionError;
use crate::netparse::{mask_to_prefix, net_of_str, parse_network, spec_mask_to_prefix};
use crate::outcome::PersistentStateHandlerOutcome;
use crate::prefix::{IpFamily, IpPrefix};
use crate::version::{ConfigVersion, StateSla, Versioned};

verus! {

/// Default MTU of a tenant segment.
pub const DEFAULT_MTU_TENANT: i32 = 9000;

/// Default MTU of every other segment kind.
pub const DEFAULT_MTU_OTHER: i32 = 1500;

/// SLA on leaving `Provisioning`, in microseconds.
pub const PROVISIONING_SLA_MICROS: i64 = 3_600_000_000;

/// SLA on finishing the final delete, in microseconds.
pub const DELETING_DBDELETE_SLA_MICROS: i64 = 600_000_000;

/// Kinds of network segment a controller manages.
#[derive(Debug, Clone, Copy, PartialEq, Eq, Structural)]
pub enum NetworkSegmentType {
    Tenant,
    Admin,
    Underlay,
    HostInband,
}

impl NetworkSegmentType {
    /// Whether instances of tenants are placed on this kind of segment.
    pub fn is_tenant(&self) -> (r: bool)
        ensures
            r == (*self == NetworkSegmentType::Tenant || *self == NetworkSegmentType::HostInband),
    {
        match self {
            NetworkSegmentType::Tenant | NetworkSegmentType::HostInband => true,
            _ => false,
        }
    }

    /// The segment type a wire value denotes, if any.
    pub open spec fn spec_of_wire(value: i32) -> Option<NetworkSegmentType> {
        if value == 0 {
            Some(NetworkSegmentType::Tenant)
        } else if value == 1 {
            Some(NetworkSegmentType::Admin)
        } else if value == 2 {
            Some(NetworkSegmentType::Underlay)
        } else if value == 3 {
            Some(NetworkSegmentType::HostInband)
        } else {
            None
        }
    }

    /// Decode the wire encoding of a segment type.
    pub fn try_from_wire(value: i32) -> (r: Result<NetworkSegmentType, RpcConversionError>)
        ensures
            match r {
                Ok(t) => Self::spec_of_wire(value) == Some(t),
                Err(e) => Self::spec_of_wire(value) is None && e
                    == RpcConversionError::InvalidNetworkSegmentType(value),
            },
    {
        if value == 0 {
            Ok(NetworkSegmentType::Tenant)
        } else if value == 1 {
            Ok(NetworkSegmentType::Admin)
        } else if value == 2 {
            Ok(NetworkSegmentType::Underlay)
        } else if value == 3 {
            Ok(NetworkSegmentType::HostInband)
        } else {
            Err(RpcConversionError::InvalidNetworkSegmentType(value))
        }
    }

    /// The label a segment type goes by in the database and in metrics.
    pub fn label(&self) -> (r: &'static str)
        ensures
            r@ == self.spec_label(),
    {
        match self {
            NetworkSegmentType::Tenant => "tenant",
            NetworkSegmentType::Admin => "admin",
            NetworkSegmentType::Underlay => "tor",
            NetworkSegmentType::HostInband => "host_inband",
        }
    }

    pub open spec fn spec_label(&self) -> Seq<char> {
        match *self {
            NetworkSegmentType::Tenant => "tenant"@,
            NetworkSegmentType::Admin => "admin"@,
            NetworkSegmentType::Underlay => "tor"@,
            NetworkSegmentType::HostInband => "host_inband"@,
        }
    }

    /// Decode the label; the inverse of [`Self::label`].
    pub fn parse_label(s: &str) -> (r: Result<NetworkSegmentType, RpcConversionError>)
        ensures
            match r {
                Ok(t) => t.spec_label() == s@,
                Err(e) => e matches RpcConversionError::InvalidArgument(m) && m@ == s@ && (forall|
                    t: NetworkSegmentType,
                |
                    t.spec_label() != s@),
            },
    {
        let tenant: String = "tenant".to_string();
        let admin: String = "admin".to_string();
        let tor: String = "tor".to_string();
        let host_inband: String = "host_inband".to_string();
        let owned: String = s.to_string();
        if owned == tenant {
            Ok(NetworkSegmentType::Tenant)
        } else if owned == admin {
            Ok(NetworkSegmentType::Admin)
        } else if owned == tor {
            Ok(NetworkSegmentType::Underlay)
        } else if owned == host_inband {
            Ok(NetworkSegmentType::HostInband)
        } else {
            proof {
                assert forall|t: NetworkSegmentType| t.spec_label() != s@ by {}
            }
            Err(RpcConversionError::InvalidArgument(owned))
        }
    }
}

/// State of a network segment as tracked by the controller.
#[derive(Debug, Clone, Copy, PartialEq, Eq, Structural)]
pub enum NetworkSegmentControllerState {
    Provisioning,
    /// The network segment is ready; instances can be created.
    Ready,
    /// The network segment is in the process of being deleted.
    Deleting { deletion_state: NetworkSegmentDeletionState },
}

/// Stations of a segment's deletion.
#[derive(Debug, Clone, Copy, PartialEq, Eq, Structural)]
pub enum NetworkSegmentDeletionState {
    /// Waiting until every IP allocated on the segment is released, plus a
    /// grace period; `delete_at` is when the wait would end.
    DrainAllocatedIps { delete_at: i64 },
    /// Release the VNI and VLAN allocations and remove the segment row.
    DBDelete,
}

impl StateValue for NetworkSegmentControllerState {
    fn dup(&self) -> (r: Self)
        ensures
            r == *self,
    {
        *self
    }
}

/// How a segment is described in the site configuration file.
#[derive(Debug, Clone, PartialEq, Eq)]
pub struct NetworkDefinition {
    pub segment_type: NetworkDefinitionSegmentType,
    /// CIDR notation.
    pub prefix: String,
    /// Usually the first IP in the prefix range.
    pub gateway: String,
    /// Typically 9000 for the admin network, 1500 for the underlay.
    pub mtu: i32,
    /// How many addresses to skip before allocating.
    pub reserve_first: i32,
}

/// Segment kinds that may appear in the configuration file; tenant segments
/// are created through the API instead.
#[derive(Debug, Clone, Copy, PartialEq, Eq, Structural)]
pub enum NetworkDefinitionSegmentType {
    Admin,
    Underlay,
}

/// What a segment search should load besides the rows themselves.
#[derive(Debug, Clone, Copy)]
pub struct NetworkSegmentSearchConfig {
    pub include_history: bool,
    pub include_num_free_ips: bool,
}

impl Default for NetworkSegmentSearchConfig {
    /// By default neither history nor free-IP counts are loaded.
    fn default() -> (r: NetworkSegmentSearchConfig)
        ensures
            !r.include_history,
            !r.include_num_free_ips,
    {
        NetworkSegmentSearchConfig { include_history: false, include_num_free_ips: false }
    }
}

/// One prefix attached to a segment.
#[derive(Debug, Clone, Copy)]
pub struct NetworkPrefix {
    pub id: u128,
    pub prefix: IpPrefix,
    pub gateway: Option<u128>,
    pub num_reserved: u32,
    pub svi_ip: Option<u128>,
    pub num_free_ips: u64,
}

/// One history row of a segment.
#[derive(Debug, Clone, Copy)]
pub struct NetworkSegmentStateHistory {
    pub state: NetworkSegmentControllerState,
    pub version: ConfigVersion,
}

/// A network segment as loaded from the store.
#[derive(Debug, Clone)]
pub struct NetworkSegment {
    pub id: u128,
    pub version: ConfigVersion,
    pub name: String,
    pub subdomain_id: Option<u128>,
    pub vpc_id: Option<u128>,
    pub mtu: i32,
    pub controller_state: Versioned<NetworkSegmentControllerState>,
    /// The result of the last attempt to change state.
    pub controller_state_outcome: Option<PersistentStateHandlerOutcome>,
    pub created: i64,
    pub updated: i64,
    pub deleted: Option<i64>,
    pub prefixes: Vec<NetworkPrefix>,
    /// History of state changes.
    pub history: Vec<NetworkSegmentStateHistory>,
    pub vlan_id: Option<i16>,
    pub vni: Option<i32>,
    pub segment_type: NetworkSegmentType,
    pub can_stretch: Option<bool>,
}

impl NetworkSegment {
    /// Whether the segment was deleted by the user.
    pub fn is_marked_as_deleted(&self) -> (r: bool)
        ensures
            r == (self.deleted is Some),
    {
        self.deleted.is_some()
    }
}

/// The SLA of the segment's current state: bounded while provisioning and
/// while the final delete runs, unbounded otherwise (draining may wait on
/// tenants indefinitely).
pub fn state_sla(
    state: &NetworkSegmentControllerState,
    state_version: &ConfigVersion,
    now_micros: i64,
) -> (r: StateSla)
    requires
        state_version.timestamp_micros >= 0,
        now_micros >= 0,
    ensures
        r == spec_state_sla(*state, *state_version, now_micros),
{
    let time_in_state = state_version.time_in_state(now_micros);
    match state {
        NetworkSegmentControllerState::Provisioning => StateSla::with_sla(
            PROVISIONING_SLA_MICROS,
            time_in_state,
        ),
        NetworkSegmentControllerState::Ready => StateSla::no_sla(),
        NetworkSegmentControllerState::Deleting {
            deletion_state: NetworkSegmentDeletionState::DrainAllocatedIps { .. },
        } => StateSla::no_sla(),
        NetworkSegmentControllerState::Deleting {
            deletion_state: NetworkSegmentDeletionState::DBDelete,
        } => StateSla::with_sla(DELETING_DBDELETE_SLA_MICROS, time_in_state),
    }
}

pub open spec fn spec_state_sla(
    state: NetworkSegmentControllerState,
    state_version: ConfigVersion,
    now_micros: i64,
) -> StateSla {
    let time_in_state: i64 = if now_micros >= state_version.timestamp_micros {
        (now_micros - state_version.timestamp_micros) as i64
    } else {
        crate::version::CLOCK_SKEW_FALLBACK_MICROS
    };
    match state {
        NetworkSegmentControllerState::Provisioning => StateSla::Sla {
            sla_micros: PROVISIONING_SLA_MICROS,
            time_in_state_micros: time_in_state,
        },
        NetworkSegmentControllerState::Ready => StateSla::NoSla,
        NetworkSegmentControllerState::Deleting {
            deletion_state: NetworkSegmentDeletionState::DrainAllocatedIps { .. },
        } => StateSla::NoSla,
        NetworkSegmentControllerState::Deleting {
            deletion_state: NetworkSegmentDeletionState::DBDelete,
        } => StateSla::Sla {
            sla_micros: DELETING_DBDELETE_SLA_MICROS,
            time_in_state_micros: time_in_state,
        },
    }
}

/// The SLA of the segment's current state at this moment, read from the
/// wall clock; the result is [`spec_state_sla`] at some non-negative time.
pub fn state_sla_now(
    state: &NetworkSegmentControllerState,
    state_version: &ConfigVersion,
) -> (r: StateSla)
    requires
        state_version.timestamp_micros >= 0,
    ensures
        exists|now: i64| now >= 0 && r == spec_state_sla(*state, *state_version, now),
{
    let now = crate::clock::now_micros();
    let now: i64 = if now < 0 {
        0
    } else {
        now
    };
    let r = state_sla(state, state_version, now);
    proof {
        assert(now >= 0 && r == spec_state_sla(*state, *state_version, now));
    }
    r
}

/// One prefix of a segment-creation request, fields as they arrive on the
/// wire.
#[derive(Debug, Clone)]
pub struct NetworkPrefixCreationRequest {
    pub id: Option<u128>,
    pub prefix: String,
    pub gateway: Option<String>,
    pub reserve_first: i32,
    pub free_ip_count: i64,
    pub svi_ip: Option<String>,
}

/// A segment-creation request, fields as they arrive on the wire.
#[derive(Debug)]
pub struct NetworkSegmentCreationRequest {
    pub id: Option<u128>,
    pub mtu: Option<i32>,
    pub name: String,
    pub prefixes: Vec<NetworkPrefixCreationRequest>,
    pub subdomain_id: Option<u128>,
    pub vpc_id: Option<u128>,
    pub segment_type: i32,
}

/// A validated prefix about to be persisted.
#[derive(Debug, Clone, Copy, PartialEq, Eq, Structural)]
pub struct NewNetworkPrefix {
    pub prefix: IpPrefix,
    pub gateway: Option<u128>,
    pub num_reserved: i32,
}

/// A validated segment about to be persisted.
#[derive(Debug, PartialEq, Eq)]
pub struct NewNetworkSegment {
    pub id: u128,
    pub name: String,
    pub subdomain_id: Option<u128>,
    pub vpc_id: Option<u128>,
    pub mtu: i32,
    pub prefixes: Vec<NewNetworkPrefix>,
    pub vlan_id: Option<i16>,
    pub vni: Option<i32>,
    pub segment_type: NetworkSegmentType,
    pub can_stretch: Option<bool>,
}

/// Whether both CIDR texts of a requested prefix parse.
pub open spec fn spec_prefix_req_parses(p: NetworkPrefixCreationRequest) -> bool {
    &&& net_of_str(p.prefix@) is Some
    &&& match p.gateway {
        Some(g) => net_of_str(g@) is Some,
        None => true,
    }
}

/// The validated prefix a requested prefix denotes, assuming both texts
/// parse.
pub open spec fn spec_new_prefix_of(p: NetworkPrefixCreationRequest) -> NewNetworkPrefix {
    let (a, l, v6) = net_of_str(p.prefix@)->Some_0;
    NewNetworkPrefix {
        prefix: spec_mask_to_prefix(a, l, v6),
        gateway: match p.gateway {
            Some(g) => Some(net_of_str(g@)->Some_0.0),
            None => None,
        },
        num_reserved: p.reserve_first,
    }
}

/// Whether a parsed prefix length is allowed on a tenant segment: no IPv4
/// /31 or /32, no IPv6 /127 or /128.
pub open spec fn spec_tenant_len_ok(p: NetworkPrefixCreationRequest) -> bool {
    let (a, l, v6) = net_of_str(p.prefix@)->Some_0;
    if v6 {
        l < 127
    } else {
        l < 31
    }
}

/// Whether a whole creation request is valid.
pub open spec fn spec_request_valid(value: NetworkSegmentCreationRequest) -> bool {
    &&& value.prefixes@.len() > 0
    &&& (forall|i: int|
        0 <= i < value.prefixes@.len() ==> spec_prefix_req_parses(#[trigger] value.prefixes@[i]))
    &&& NetworkSegmentType::spec_of_wire(value.segment_type) is Some
    &&& (NetworkSegmentType::spec_of_wire(value.segment_type) == Some(NetworkSegmentType::Tenant)
        ==> forall|i: int|
        0 <= i < value.prefixes@.len() ==> spec_tenant_len_ok(#[trigger] value.prefixes@[i]))
}

impl NewNetworkSegment {
/// Validate a creation request and build the segment to persist.
///
/// `fresh_id` is used when the request names no id. Prefixes must be
/// non-empty and parse; the segment type must be a known wire value; tenant
/// segments refuse host-size and linknet-size prefixes, which could never
/// hold an instance address. Only such a request yields a segment.
pub fn try_from_request(
    value: NetworkSegmentCreationRequest,
    fresh_id: u128,
) -> (r: Result<NewNetworkSegment, RpcConversionError>)
    ensures
        r is Ok <==> spec_request_valid(value),
        match r {
            Ok(s) => {
                let t = NetworkSegmentType::spec_of_wire(value.segment_type)->Some_0;
                &&& s.id == match value.id {
                    Some(i) => i,
                    None => fresh_id,
                }
                &&& s.name == value.name
                &&& s.subdomain_id == value.subdomain_id
                &&& s.vpc_id == value.vpc_id
                &&& s.mtu == match value.mtu {
                    Some(m) => m,
                    None => if t == NetworkSegmentType::Tenant {
                        DEFAULT_MTU_TENANT
                    } else {
                        DEFAULT_MTU_OTHER
                    },
                }
                &&& s.vlan_id is None
                &&& s.vni is None
                &&& s.segment_type == t
                &&& s.can_stretch == if t == NetworkSegmentType::Tenant {
                    Some(true)
                } else {
                    Option::<bool>::None
                }
                &&& s.prefixes@.len() == value.prefixes@.len()
                &&& (forall|i: int|
                    0 <= i < value.prefixes@.len() ==> #[trigger] s.prefixes@[i]
                        == spec_new_prefix_of(value.prefixes@[i]))
                &&& (forall|i: int|
                    0 <= i < s.prefixes@.len() ==> (#[trigger] s.prefixes@[i]).prefix.wf())
            },
            Err(e) => match e {
                RpcConversionError::InvalidIpAddress(s) => exists|i: int|
                    0 <= i < value.prefixes@.len() && !spec_prefix_req_parses(
                        #[trigger] value.prefixes@[i],
                    ) && (s@ == value.prefixes@[i].prefix@ || (value.prefixes@[i].gateway matches
                    Some(g) && s@ == g@)),
                RpcConversionError::InvalidNetworkSegmentType(v) => v == value.segment_type
                    && NetworkSegmentType::spec_of_wire(value.segment_type) is None
                    && value.prefixes@.len() > 0,
                RpcConversionError::InvalidArgument(_) => value.prefixes@.len() == 0 || (
                NetworkSegmentType::spec_of_wire(value.segment_type) == Some(
                    NetworkSegmentType::Tenant,
                ) && exists|i: int|
                    0 <= i < value.prefixes@.len() && !spec_tenant_len_ok(
                        #[trigger] value.prefixes@[i],
                    )),
            },
        },
{
    if value.prefixes.len() == 0 {
        return Err(RpcConversionError::InvalidArgument("prefixes are empty".to_string()));
    }
    let mut prefixes: Vec<NewNetworkPrefix> = Vec::new();
    let mut i: usize = 0;
    let n = value.prefixes.len();
    while i < n
        invariant
            n == value.prefixes@.len(),
            i <= n,
            prefixes@.len() == i as int,
            forall|j: int| 0 <= j < i ==> spec_prefix_req_parses(#[trigger] value.prefixes@[j]),
            forall|j: int|
                0 <= j < i ==> #[trigger] prefixes@[j] == spec_new_prefix_of(value.prefixes@[j]),
            forall|j: int| 0 <= j < i ==> (#[trigger] prefixes@[j]).prefix.wf(),
        decreases n - i,
    {
        let req = &value.prefixes[i];
        let parsed = match parse_network(req.prefix.as_str()) {
            Some(p) => p,
            None => {
                return Err(RpcConversionError::InvalidIpAddress(req.prefix.clone()));
            },
        };
        let gateway: Option<u128> = match &req.gateway {
            Some(g) => {
                match parse_network(g.as_str()) {
                    Some((ga, _, _)) => Some(ga),
                    None => {
                        return Err(RpcConversionError::InvalidIpAddress(g.clone()));
                    },
                }
            },
            None => None,
        };
        let (a, l, v6) = parsed;
        let prefix = mask_to_prefix(a, l, v6);
        prefixes.push(NewNetworkPrefix { prefix, gateway, num_reserved: req.reserve_first });
        i = i + 1;
    }
    let segment_type = match NetworkSegmentType::try_from_wire(value.segment_type) {
        Ok(t) => t,
        Err(e) => {
            return Err(e);
        },
    };
    if segment_type == NetworkSegmentType::Tenant {
        let mut j: usize = 0;
        while j < n
            invariant
                n == value.prefixes@.len(),
                j <= n,
                segment_type == NetworkSegmentType::Tenant,
                NetworkSegmentType::spec_of_wire(value.segment_type) == Some(
                    NetworkSegmentType::Tenant,
                ),
                forall|k: int| 0 <= k < n ==> spec_prefix_req_parses(#[trigger] value.prefixes@[k]),
                forall|k: int| 0 <= k < j ==> spec_tenant_len_ok(#[trigger] value.prefixes@[k]),
            decreases n - j,
        {
            let req = &value.prefixes[j];
            let parsed = match parse_network(req.prefix.as_str()) {
                Some(p) => p,
                None => {
                    return Err(RpcConversionError::InvalidIpAddress(req.prefix.clone()));
                },
            };
            let (_, l, v6) = parsed;
            let too_long = if v6 {
                l >= 127
            } else {
                l >= 31
            };
            if too_long {
                proof {
                    assert(net_of_str(value.prefixes@[j as int].prefix@) == Some(parsed));
                    assert(!spec_tenant_len_ok(value.prefixes@[j as int]));
                    assert(!spec_request_valid(value));
                }
                return Err(
                    RpcConversionError::InvalidArgument(
                        "prefixes of host or linknet size are not allowed for tenant segments".to_string(),
                    ),
                );
            }
            j = j + 1;
        }
    }
    let id = match value.id {
        Some(i) => i,
        None => fresh_id,
    };
    let mtu = match value.mtu {
        Some(m) => m,
        None => {
            if segment_type == NetworkSegmentType::Tenant {
                DEFAULT_MTU_TENANT
            } else {
                DEFAULT_MTU_OTHER
            }
        },
    };
    let can_stretch = if segment_type == NetworkSegmentType::Tenant {
        Some(true)
    } else {
        None
    };
    Ok(
        NewNetworkSegment {
            id,
            name: value.name,
            subdomain_id: value.subdomain_id,
            vpc_id: value.vpc_id,
            mtu,
            prefixes,
            vlan_id: None,
            vni: None,
            segment_type,
            can_stretch,
        },
    )
}

/// Build a segment from one configuration-file definition: one prefix, its
/// gateway, and an admin or underlay type.
pub fn build_from(name: &str, domain_id: u128, value: &NetworkDefinition, fresh_id: u128) -> (r:
    Result<NewNetworkSegment, RpcConversionError>)
    ensures
        r is Ok <==> net_of_str(value.prefix@) is Some && net_of_str(value.gateway@) is Some,
        match r {
            Ok(s) => {
                &&& s.id == fresh_id
                &&& s.name@ == name@
                &&& s.subdomain_id == Some(domain_id)
                &&& s.vpc_id is None
                &&& s.mtu == value.mtu
                &&& s.prefixes@.len() == 1
                &&& ({
                    let (a, l, v6) = net_of_str(value.prefix@)->Some_0;
                    s.prefixes@[0].prefix == spec_mask_to_prefix(a, l, v6)
                        && s.prefixes@[0].prefix.wf()
                })
                &&& s.prefixes@[0].gateway == Some(net_of_str(value.gateway@)->Some_0.0)
                &&& s.prefixes@[0].num_reserved == value.reserve_first
                &&& s.vlan_id is None
                &&& s.vni is None
                &&& s.segment_type == match value.segment_type {
                    NetworkDefinitionSegmentType::Admin => NetworkSegmentType::Admin,
                    NetworkDefinitionSegmentType::Underlay => NetworkSegmentType::Underlay,
                }
                &&& s.can_stretch is None
            },
            Err(e) => e matches RpcConversionError::InvalidIpAddress(s) && (s@ == value.prefix@
                || s@ == value.gateway@),
        },
{
    let parsed = match parse_network(value.prefix.as_str()) {
        Some(p) => p,
        None => {
            return Err(RpcConversionError::InvalidIpAddress(value.prefix.clone()));
        },
    };
    let gateway_addr = match parse_network(value.gateway.as_str()) {
        Some((ga, _, _)) => ga,
        None => {
            return Err(RpcConversionError::InvalidIpAddress(value.gateway.clone()));
        },
    };
    let (a, l, v6) = parsed;
    let prefix = mask_to_prefix(a, l, v6);
    let new_prefix = NewNetworkPrefix {
        prefix,
        gateway: Some(gateway_addr),
        num_reserved: value.reserve_first,
    };
    let mut prefixes: Vec<NewNetworkPrefix> = Vec::new();
    prefixes.push(new_prefix);
    Ok(
        NewNetworkSegment {
            id: fresh_id,
            name: name.to_string(),
            subdomain_id: Some(domain_id),
            vpc_id: None,
            mtu: value.mtu,
            prefixes,
            vlan_id: None,
            vni: None,
            segment_type: match value.segment_type {
                NetworkDefinitionSegmentType::Admin => NetworkSegmentType::Admin,
                NetworkDefinitionSegmentType::Underlay => NetworkSegmentType::Underlay,
            },
            can_stretch: None,
        },
    )
}

}

} // verus!
