//! The allocation engine over a network segment's prefixes.
//!
//! All reads and writes of the address table happen inside one transaction
//! that holds the table's exclusive lock, so the set of used addresses the
//! engine sees is the set it assigns from. On any error the savepoint rolls
//! the table back; rows land only when the whole configuration was served.

use vstd::prelude::*;

use crate::allocator::{find_free_block, host_ip, is_free_block, is_lowest_free_block, spec_host_ip};
use crate::errors::{AllocationError, ConfigValidationError};
use crate::prefix::{IpFamily, IpPrefix};
use crate::segment::{NetworkPrefix, NetworkSegment, NetworkSegmentControllerState, NetworkSegmentType};

verus! {

/// An address tagged with the prefix length of the network it was assigned
/// from; the host bits may be set.
#[derive(Debug, Clone, Copy, PartialEq, Eq, Structural)]
pub struct AddressNet {
    pub addr: u128,
    pub len: u8,
    pub family: IpFamily,
}

/// Which network backs an interface.
#[derive(Debug, Clone, Copy, PartialEq, Eq, Structural)]
pub enum NetworkDetails {
    NetworkSegment(u128),
    VpcPrefixId(u128),
}

/// The network configuration of one instance interface.
#[derive(Debug)]
pub struct InstanceInterfaceConfig {
    pub function_id: u64,
    pub network_segment_id: Option<u128>,
    pub network_details: Option<NetworkDetails>,
    /// Assigned host address per prefix id.
    pub ip_addrs: Vec<(u128, u128)>,
    /// Assigned sub-network per prefix id.
    pub interface_prefixes: Vec<(u128, IpPrefix)>,
    /// Gateway, as an address under the segment prefix's length, per prefix
    /// id.
    pub network_segment_gateways: Vec<(u128, AddressNet)>,
    pub host_inband_mac_address: Option<u64>,
}

/// The network configuration of one instance.
#[derive(Debug)]
pub struct InstanceNetworkConfig {
    pub interfaces: Vec<InstanceInterfaceConfig>,
}

/// One interface of a managed host.
#[derive(Debug)]
pub struct MachineInterface {
    pub segment_id: u128,
    pub mac_address: u64,
    pub addresses: Vec<u128>,
}

/// The slice of a managed host the engine reads.
#[derive(Debug)]
pub struct Machine {
    pub id: u128,
    pub interfaces: Vec<MachineInterface>,
}

/// Marker of the address table's `prefix` column.
#[derive(Debug, Clone, Copy)]
pub struct PrefixColumn;

impl crate::columns::ColumnInfo for PrefixColumn {
    fn column_name(&self) -> (r: &'static str)
        ensures
            r@ == "prefix"@,
    {
        "prefix"
    }
}

/// One row of the address table.
#[derive(Debug, Clone, Copy, PartialEq, Eq, Structural)]
pub struct InstanceAddress {
    pub instance_id: u128,
    pub address: u128,
    pub segment_id: u128,
    pub prefix: IpPrefix,
}

/// The prefixes of a segment's rows, in table order.
pub open spec fn spec_used_prefixes(rows: Seq<InstanceAddress>, segment_id: u128) -> Seq<IpPrefix>
    decreases rows.len(),
{
    if rows.len() == 0 {
        Seq::empty()
    } else {
        spec_used_prefixes(rows.drop_last(), segment_id) + if rows.last().segment_id
            == segment_id {
            seq![rows.last().prefix]
        } else {
            Seq::empty()
        }
    }
}

/// The address table, as observed and mutated under its exclusive lock.
#[derive(Debug)]
pub struct AddressTable {
    pub rows: Vec<InstanceAddress>,
}

impl AddressTable {
    /// Every stored prefix is well-formed.
    pub open spec fn wf(&self) -> bool {
        forall|i: int| 0 <= i < self.rows@.len() ==> (#[trigger] self.rows@[i]).prefix.wf()
    }

    pub fn new() -> (r: AddressTable)
        ensures
            r.wf(),
            r.rows@.len() == 0,
    {
        AddressTable { rows: Vec::new() }
    }

    /// An exact copy of the table, the working state of a savepoint.
    pub fn duplicate(&self) -> (r: AddressTable)
        ensures
            r.rows@ == self.rows@,
    {
        let mut rows: Vec<InstanceAddress> = Vec::new();
        let mut i: usize = 0;
        while i < self.rows.len()
            invariant
                i <= self.rows@.len(),
                rows@ == self.rows@.take(i as int),
            decreases self.rows@.len() - i,
        {
            rows.push(self.rows[i]);
            proof {
                assert(rows@ =~= self.rows@.take(i + 1));
            }
            i = i + 1;
        }
        proof {
            assert(self.rows@.take(self.rows@.len() as int) =~= self.rows@);
        }
        AddressTable { rows }
    }

    /// The prefixes already attached to a segment: what the engine must not
    /// hand out again.
    pub fn used_prefixes(&self, segment_id: u128) -> (r: Vec<IpPrefix>)
        requires
            self.wf(),
        ensures
            r@ == spec_used_prefixes(self.rows@, segment_id),
            forall|k: int| 0 <= k < r@.len() ==> (#[trigger] r@[k]).wf(),
    {
        let mut out: Vec<IpPrefix> = Vec::new();
        let mut i: usize = 0;
        while i < self.rows.len()
            invariant
                self.wf(),
                i <= self.rows@.len(),
                out@ == spec_used_prefixes(self.rows@.take(i as int), segment_id),
                forall|k: int| 0 <= k < out@.len() ==> (#[trigger] out@[k]).wf(),
            decreases self.rows@.len() - i,
        {
            proof {
                assert(self.rows@.take(i + 1).drop_last() =~= self.rows@.take(i as int));
                assert(self.rows@.take(i + 1).last() == self.rows@[i as int]);
            }
            if self.rows[i].segment_id == segment_id {
                out.push(self.rows[i].prefix);
                proof {
                    assert(out@ =~= spec_used_prefixes(self.rows@.take(i + 1), segment_id));
                }
            } else {
                proof {
                    assert(out@ =~= spec_used_prefixes(self.rows@.take(i + 1), segment_id));
                }
            }
            i = i + 1;
        }
        proof {
            assert(self.rows@.take(self.rows@.len() as int) =~= self.rows@);
        }
        out
    }
}

/// Whether one segment fails the pre-allocation checks, and how. A segment
/// created from a VPC prefix is not expected to be `Ready` yet.
pub open spec fn spec_segment_violation(
    seg: NetworkSegment,
    using_vpc_prefix: Seq<u128>,
) -> Option<ConfigValidationError> {
    if seg.deleted is Some {
        Some(ConfigValidationError::NetworkSegmentToBeDeleted(seg.id))
    } else if !using_vpc_prefix.contains(seg.id) && !(seg.controller_state.value
        == NetworkSegmentControllerState::Ready) {
        Some(ConfigValidationError::NetworkSegmentNotReady(seg.id))
    } else if seg.vpc_id is None {
        Some(ConfigValidationError::VpcNotAttachedToSegment(seg.id))
    } else {
        None
    }
}

/// Whether every segment passes and they all name the same single VPC.
pub open spec fn spec_validate_ok(
    segments: Seq<NetworkSegment>,
    interface_count: int,
    using_vpc_prefix: Seq<u128>,
) -> bool {
    &&& segments.len() == interface_count
    &&& (forall|i: int|
        0 <= i < segments.len() ==> spec_segment_violation(
            #[trigger] segments[i],
            using_vpc_prefix,
        ) is None)
    &&& segments.len() > 0
    &&& (forall|i: int|
        0 <= i < segments.len() ==> (#[trigger] segments[i]).vpc_id == segments[0].vpc_id)
}

/// Which error [`validate`] reports for a set that cannot serve the
/// configuration.
pub open spec fn spec_validate_err(
    segments: Seq<NetworkSegment>,
    interface_count: int,
    using_vpc_prefix: Seq<u128>,
    cve: ConfigValidationError,
) -> bool {
    match cve {
        ConfigValidationError::UnknownSegments => segments.len() != interface_count,
        ConfigValidationError::MultipleVpcFound => segments.len() == interface_count && (forall|
            i: int,
        |
            0 <= i < segments.len() ==> spec_segment_violation(
                #[trigger] segments[i],
                using_vpc_prefix,
            ) is None) && !(segments.len() > 0 && forall|i: int|
            0 <= i < segments.len() ==> (#[trigger] segments[i]).vpc_id == segments[0].vpc_id),
        _ => exists|i: int|
            0 <= i < segments.len() && spec_segment_violation(
                #[trigger] segments[i],
                using_vpc_prefix,
            ) == Some(cve),
    }
}

/// Check that a set of loaded segments can serve a tenant network
/// configuration: one segment per interface, none deleted, all ready
/// (unless created from a VPC prefix), and all in one VPC.
#[verifier::rlimit(50)]
pub fn validate(
    segments: &Vec<NetworkSegment>,
    interface_count: usize,
    using_vpc_prefix: &Vec<u128>,
) -> (r: Result<(), AllocationError>)
    ensures
        r is Ok <==> spec_validate_ok(
            segments@,
            interface_count as int,
            using_vpc_prefix@,
        ),
        match r {
            Ok(_) => true,
            Err(e) => match e {
                AllocationError::InvalidConfiguration(cve) => spec_validate_err(
                    segments@,
                    interface_count as int,
                    using_vpc_prefix@,
                    cve,
                ),
                _ => false,
            },
        },
{
    if segments.len() != interface_count {
        return Err(
            AllocationError::InvalidConfiguration(ConfigValidationError::UnknownSegments),
        );
    }
    let mut i: usize = 0;
    let n = segments.len();
    while i < n
        invariant
            n == segments@.len(),
            i <= n,
            forall|j: int|
                0 <= j < i ==> spec_segment_violation(
                    #[trigger] segments@[j],
                    using_vpc_prefix@,
                ) is None,
        decreases n - i,
    {
        let seg = &segments[i];
        if seg.is_marked_as_deleted() {
            return Err(
                AllocationError::InvalidConfiguration(
                    ConfigValidationError::NetworkSegmentToBeDeleted(seg.id),
                ),
            );
        }
        let in_vpc_list = contains_id(using_vpc_prefix, seg.id);
        if !in_vpc_list {
            match seg.controller_state.value {
                NetworkSegmentControllerState::Ready => {},
                _ => {
                    return Err(
                        AllocationError::InvalidConfiguration(
                            ConfigValidationError::NetworkSegmentNotReady(seg.id),
                        ),
                    );
                },
            }
        }
        if seg.vpc_id.is_none() {
            return Err(
                AllocationError::InvalidConfiguration(
                    ConfigValidationError::VpcNotAttachedToSegment(seg.id),
                ),
            );
        }
        i = i + 1;
    }
    // all segments must belong to one VPC
    if segments.len() == 0 {
        return Err(
            AllocationError::InvalidConfiguration(ConfigValidationError::MultipleVpcFound),
        );
    }
    let first_vpc = segments[0].vpc_id;
    let mut j: usize = 1;
    while j < n
        invariant
            n == segments@.len(),
            n > 0,
            1 <= j <= n,
            first_vpc == segments@[0].vpc_id,
            segments@.len() == interface_count as int,
            forall|k: int|
                0 <= k < n ==> spec_segment_violation(
                    #[trigger] segments@[k],
                    using_vpc_prefix@,
                ) is None,
            forall|k: int| 0 <= k < j ==> (#[trigger] segments@[k]).vpc_id == segments@[0].vpc_id,
        decreases n - j,
    {
        if !option_u128_eq(&segments[j].vpc_id, &first_vpc) {
            return Err(
                AllocationError::InvalidConfiguration(ConfigValidationError::MultipleVpcFound),
            );
        }
        j = j + 1;
    }
    Ok(())
}

fn option_u128_eq(a: &Option<u128>, b: &Option<u128>) -> (r: bool)
    ensures
        r == (*a == *b),
{
    match (a, b) {
        (Some(x), Some(y)) => *x == *y,
        (None, None) => true,
        _ => false,
    }
}

fn contains_id(ids: &Vec<u128>, id: u128) -> (r: bool)
    ensures
        r == ids@.contains(id),
{
    let mut i: usize = 0;
    while i < ids.len()
        invariant
            i <= ids@.len(),
            forall|j: int| 0 <= j < i ==> ids@[j] != id,
        decreases ids@.len() - i,
    {
        if ids[i] == id {
            return true;
        }
        i = i + 1;
    }
    false
}

/// The successful host-inband pickup: `i` names the unique matching host
/// interface, and the adopted address is the lowest of its addresses inside
/// the segment's prefix.
pub open spec fn spec_host_pick(
    machine: &Machine,
    pre: InstanceInterfaceConfig,
    post: InstanceInterfaceConfig,
    network_prefix: NetworkPrefix,
    addrs: Seq<AddressNet>,
    multiple: bool,
    i: int,
) -> bool {
    let mi = machine.interfaces@[i];
    &&& 0 <= i < machine.interfaces@.len()
    &&& spec_interface_matches(mi, pre)
    &&& (forall|j: int|
        0 <= j < machine.interfaces@.len() && j != i ==> !spec_interface_matches(
            #[trigger] machine.interfaces@[j],
            pre,
        ))
    &&& addrs.len() == 1
    &&& mi.addresses@.contains(addrs[0].addr)
    &&& network_prefix.prefix.spec_contains(addrs[0].addr as int)
    &&& (forall|k: int|
        0 <= k < mi.addresses@.len() && network_prefix.prefix.spec_contains(
            #[trigger] mi.addresses@[k] as int,
        ) ==> addrs[0].addr <= mi.addresses@[k])
    &&& (multiple <==> exists|k1: int, k2: int|
        0 <= k1 < k2 < mi.addresses@.len() && network_prefix.prefix.spec_contains(
            #[trigger] mi.addresses@[k1] as int,
        ) && network_prefix.prefix.spec_contains(#[trigger] mi.addresses@[k2] as int))
    &&& addrs[0].len == network_prefix.prefix.len
    &&& addrs[0].family == network_prefix.prefix.family
    &&& post.ip_addrs@ == pre.ip_addrs@.push((network_prefix.id, addrs[0].addr))
    &&& post.host_inband_mac_address == Some(mi.mac_address)
    &&& post.network_segment_gateways@ == (match network_prefix.gateway {
        Some(g) => pre.network_segment_gateways@.push(
            (
                network_prefix.id,
                AddressNet {
                    addr: g,
                    len: network_prefix.prefix.len,
                    family: network_prefix.prefix.family,
                },
            ),
        ),
        None => pre.network_segment_gateways@,
    })
    &&& post.interface_prefixes@ == pre.interface_prefixes@
    &&& post.network_segment_id == pre.network_segment_id
}

/// Some host interface satisfies [`spec_host_pick`].
pub open spec fn spec_host_pick_some(
    machine: &Machine,
    pre: InstanceInterfaceConfig,
    post: InstanceInterfaceConfig,
    network_prefix: NetworkPrefix,
    addrs: Seq<AddressNet>,
    multiple: bool,
) -> bool {
    exists|i: int| spec_host_pick(machine, pre, post, network_prefix, addrs, multiple, i)
}

/// The unique matching host interface, none of whose addresses lies in the
/// segment's prefix.
pub open spec fn spec_host_without_address(
    machine: &Machine,
    pre: InstanceInterfaceConfig,
    network_prefix: NetworkPrefix,
    i: int,
) -> bool {
    let mi = machine.interfaces@[i];
    &&& 0 <= i < machine.interfaces@.len()
    &&& spec_interface_matches(mi, pre)
    &&& (forall|j: int|
        0 <= j < machine.interfaces@.len() && j != i ==> !spec_interface_matches(
            #[trigger] machine.interfaces@[j],
            pre,
        ))
    &&& (forall|k: int|
        0 <= k < mi.addresses@.len() ==> !network_prefix.prefix.spec_contains(
            #[trigger] mi.addresses@[k] as int,
        ))
}

/// Whether a host interface sits on the segment the instance interface
/// wants.
pub open spec fn spec_interface_matches(
    mi: MachineInterface,
    iface: InstanceInterfaceConfig,
) -> bool {
    iface.network_segment_id == Some(mi.segment_id)
}

/// Adopt a host interface's address for a host-inband segment: the instance
/// interface *is* the host interface, so no address is allocated.
///
/// Exactly one host interface must sit on the segment, and at least one of
/// its addresses must lie in the segment's prefix; the lowest such address
/// is adopted, and the second result reports whether several matched. The
/// segment's gateway, under the prefix's length, is recorded alongside.
#[verifier::rlimit(50)]
pub fn assign_ips_from_host(
    iface: &mut InstanceInterfaceConfig,
    machine: &Machine,
    network_prefix: &NetworkPrefix,
) -> (r: Result<(Vec<AddressNet>, bool), AllocationError>)
    requires
        network_prefix.prefix.wf(),
    ensures
        match r {
            Ok((addrs, multiple)) => spec_host_pick_some(
                machine,
                *old(iface),
                *final(iface),
                *network_prefix,
                addrs@,
                multiple,
            ),
            Err(AllocationError::FindOneReturnedManyResults(v)) => *final(iface) == *old(iface)
                && v == (match old(iface).network_segment_id {
                    Some(s) => s,
                    None => 0,
                }) && exists|i: int, j: int|
                0 <= i < j < machine.interfaces@.len() && spec_interface_matches(
                    #[trigger] machine.interfaces@[i],
                    *old(iface),
                ) && spec_interface_matches(#[trigger] machine.interfaces@[j], *old(iface)),
            Err(AllocationError::InvalidConfiguration(
                ConfigValidationError::NetworkSegmentUnavailableOnHost,
            )) => *final(iface) == *old(iface) && ((forall|i: int|
                0 <= i < machine.interfaces@.len() ==> !spec_interface_matches(
                    #[trigger] machine.interfaces@[i],
                    *old(iface),
                )) || exists|i: int|
                spec_host_without_address(machine, *old(iface), *network_prefix, i)),
            Err(_) => false,
        },
{
    // find the unique host interface on the requested segment
    let mut found: Option<usize> = None;
    let mut i: usize = 0;
    let n = machine.interfaces.len();
    while i < n
        invariant
            n == machine.interfaces@.len(),
            i <= n,
            *iface == *old(iface),
            match found {
                Some(f) => 0 <= f < i && spec_interface_matches(
                    machine.interfaces@[f as int],
                    *old(iface),
                ) && forall|j: int|
                    0 <= j < i && j != f ==> !spec_interface_matches(
                        #[trigger] machine.interfaces@[j],
                        *old(iface),
                    ),
                None => forall|j: int|
                    0 <= j < i ==> !spec_interface_matches(
                        #[trigger] machine.interfaces@[j],
                        *old(iface),
                    ),
            },
        decreases n - i,
    {
        let matches = match &iface.network_segment_id {
            Some(sid) => *sid == machine.interfaces[i].segment_id,
            None => false,
        };
        if matches {
            match found {
                Some(f) => {
                    let fallback: u128 = 0;
                    let seg_id = match &iface.network_segment_id {
                        Some(sid) => *sid,
                        None => fallback,
                    };
                    return Err(AllocationError::FindOneReturnedManyResults(seg_id));
                },
                None => {
                    found = Some(i);
                },
            }
        }
        i = i + 1;
    }
    let f = match found {
        Some(f) => f,
        None => {
            return Err(
                AllocationError::InvalidConfiguration(
                    ConfigValidationError::NetworkSegmentUnavailableOnHost,
                ),
            );
        },
    };
    let mi = &machine.interfaces[f];
    // the lowest of the interface's addresses inside the prefix
    let mut best: Option<u128> = None;
    let mut in_prefix_count: usize = 0;
    let mut k: usize = 0;
    let m = mi.addresses.len();
    while k < m
        invariant
            m == mi.addresses@.len(),
            f < machine.interfaces@.len(),
            *mi == machine.interfaces@[f as int],
            spec_interface_matches(*mi, *old(iface)),
            network_prefix.prefix.wf(),
            k <= m,
            *iface == *old(iface),
            in_prefix_count <= k,
            match best {
                Some(b) => {
                    &&& mi.addresses@.take(k as int).contains(b)
                    &&& network_prefix.prefix.spec_contains(b as int)
                    &&& (forall|l: int|
                        0 <= l < k && network_prefix.prefix.spec_contains(
                            #[trigger] mi.addresses@[l] as int,
                        ) ==> b <= mi.addresses@[l])
                    &&& in_prefix_count >= 1
                },
                None => forall|l: int|
                    0 <= l < k ==> !network_prefix.prefix.spec_contains(
                        #[trigger] mi.addresses@[l] as int,
                    ),
            },
            (in_prefix_count >= 2) <==> exists|k1: int, k2: int|
                0 <= k1 < k2 < k && network_prefix.prefix.spec_contains(
                    #[trigger] mi.addresses@[k1] as int,
                ) && network_prefix.prefix.spec_contains(#[trigger] mi.addresses@[k2] as int),
            (in_prefix_count == 1) ==> exists|k1: int|
                0 <= k1 < k && network_prefix.prefix.spec_contains(
                    #[trigger] mi.addresses@[k1] as int,
                ),
            (in_prefix_count == 0) ==> forall|l: int|
                0 <= l < k ==> !network_prefix.prefix.spec_contains(
                    #[trigger] mi.addresses@[l] as int,
                ),
        decreases m - k,
    {
        let a = mi.addresses[k];
        if network_prefix.prefix.contains(a) {
            if in_prefix_count < 2 {
                in_prefix_count = in_prefix_count + 1;
            }
            match best {
                Some(b) => {
                    if a < b {
                        best = Some(a);
                    }
                },
                None => {
                    best = Some(a);
                },
            }
            proof {
                assert(mi.addresses@.take(k + 1)[k as int] == mi.addresses@[k as int]);
            }
        }
        proof {
            assert forall|x: u128| mi.addresses@.take(k as int).contains(x)
                implies mi.addresses@.take(k + 1).contains(x) by {
                let l = choose|l: int|
                    0 <= l < k && mi.addresses@.take(k as int)[l] == x;
                assert(mi.addresses@.take(k + 1)[l] == x);
            }
        }
        k = k + 1;
    }
    let address = match best {
        Some(b) => b,
        None => {
            proof {
                assert(spec_host_without_address(
                    machine,
                    *old(iface),
                    *network_prefix,
                    f as int,
                ));
            }
            return Err(
                AllocationError::InvalidConfiguration(
                    ConfigValidationError::NetworkSegmentUnavailableOnHost,
                ),
            );
        },
    };
    let multiple = in_prefix_count >= 2;
    proof {
        let l = choose|l: int|
            0 <= l < mi.addresses@.len() && mi.addresses@.take(mi.addresses@.len() as int)[l]
                == address;
        assert(mi.addresses@[l] == address);
    }
    iface.ip_addrs.push((network_prefix.id, address));
    iface.host_inband_mac_address = Some(mi.mac_address);
    if let Some(g) = &network_prefix.gateway {
        iface.network_segment_gateways.push(
            (
                network_prefix.id,
                AddressNet {
                    addr: *g,
                    len: network_prefix.prefix.len,
                    family: network_prefix.prefix.family,
                },
            ),
        );
    }
    let mut addrs: Vec<AddressNet> = Vec::new();
    addrs.push(
        AddressNet {
            addr: address,
            len: network_prefix.prefix.len,
            family: network_prefix.prefix.family,
        },
    );
    proof {
        assert(mi.addresses@.contains(address));
        // name the unique matching interface as the witness
        assert(spec_host_pick(
            machine,
            *old(iface),
            *iface,
            *network_prefix,
            addrs@,
            multiple,
            f as int,
        ));
        assert(spec_host_pick_some(
            machine,
            *old(iface),
            *iface,
            *network_prefix,
            addrs@,
            multiple,
        ));
    }
    Ok((addrs, multiple))
}

/// Every same-segment row's prefix appears among the used prefixes.
pub proof fn lemma_used_prefixes_contains(rows: Seq<InstanceAddress>, segment_id: u128, j: int)
    requires
        0 <= j < rows.len(),
        rows[j].segment_id == segment_id,
    ensures
        spec_used_prefixes(rows, segment_id).contains(rows[j].prefix),
    decreases rows.len(),
{
    if j == rows.len() - 1 {
        let u = spec_used_prefixes(rows, segment_id);
        assert(u.last() == rows[j].prefix);
    } else {
        lemma_used_prefixes_contains(rows.drop_last(), segment_id, j);
        let u0 = spec_used_prefixes(rows.drop_last(), segment_id);
        let k = choose|k: int| 0 <= k < u0.len() && u0[k] == rows.drop_last()[j].prefix;
        assert(spec_used_prefixes(rows, segment_id)[k] == rows[j].prefix);
    }
}

/// The addresses a prefix's configuration marks busy: its SVI address.
pub open spec fn spec_busy_of(np: NetworkPrefix) -> Seq<u128> {
    match np.svi_ip {
        Some(s) => seq![s],
        None => Seq::empty(),
    }
}

/// What a successful allocator assignment did: one appended row holding the
/// lowest free host-size block of the segment prefix's window, recorded on
/// the interface under the prefix's id.
pub open spec fn spec_allocator_assigned(
    pre_rows: Seq<InstanceAddress>,
    post_rows: Seq<InstanceAddress>,
    pre_if: InstanceInterfaceConfig,
    post_if: InstanceInterfaceConfig,
    instance_id: u128,
    segment_id: u128,
    np: NetworkPrefix,
    a: AddressNet,
) -> bool {
    let row = post_rows.last();
    let host_len = np.prefix.family.spec_bits();
    &&& post_rows.len() == pre_rows.len() + 1
    &&& post_rows.drop_last() == pre_rows
    &&& row.instance_id == instance_id
    &&& row.segment_id == segment_id
    &&& row.prefix.wf()
    &&& row.prefix.family == np.prefix.family
    &&& row.prefix.len == host_len
    &&& is_lowest_free_block(
        np.prefix,
        np.num_reserved as int,
        host_len,
        spec_used_prefixes(pre_rows, segment_id),
        spec_busy_of(np),
        row.prefix.base as int,
    )
    &&& row.address == spec_host_ip(row.prefix)
    &&& np.prefix.spec_contains_prefix(row.prefix)
    &&& row.prefix.spec_contains(row.address as int)
    &&& a.addr == row.address
    &&& a.len == row.prefix.len
    &&& a.family == row.prefix.family
    &&& post_if.ip_addrs@ == pre_if.ip_addrs@.push((np.id, row.address))
    &&& post_if.interface_prefixes@ == pre_if.interface_prefixes@.push((np.id, row.prefix))
    &&& post_if.network_segment_gateways@ == pre_if.network_segment_gateways@
    &&& post_if.host_inband_mac_address == pre_if.host_inband_mac_address
    &&& post_if.network_segment_id == pre_if.network_segment_id
}

/// Allocate the lowest free host address of a segment's prefix for one
/// interface: insert the address row and record the assignment on the
/// interface. Exhaustion reports without touching either.
pub fn assign_ips_from_allocator(
    table: &mut AddressTable,
    iface: &mut InstanceInterfaceConfig,
    instance_id: u128,
    segment_id: u128,
    network_prefix: &NetworkPrefix,
) -> (r: Result<AddressNet, AllocationError>)
    requires
        old(table).wf(),
        network_prefix.prefix.wf(),
    ensures
        final(table).wf(),
        match r {
            Ok(a) => spec_allocator_assigned(
                old(table).rows@,
                final(table).rows@,
                *old(iface),
                *final(iface),
                instance_id,
                segment_id,
                *network_prefix,
                a,
            ),
            Err(e) => {
                &&& e == AllocationError::ResourceExhausted
                &&& *final(table) == *old(table)
                &&& *final(iface) == *old(iface)
                &&& forall|b: int|
                    !is_free_block(
                        network_prefix.prefix,
                        network_prefix.num_reserved as int,
                        network_prefix.prefix.family.spec_bits(),
                        spec_used_prefixes(old(table).rows@, segment_id),
                        spec_busy_of(*network_prefix),
                        b,
                    )
            },
        },
{
    let used = table.used_prefixes(segment_id);
    proof {
        lemma_used_prefixes_from_table(table.rows@, segment_id);
    }
    let mut busy: Vec<u128> = Vec::new();
    if let Some(s) = &network_prefix.svi_ip {
        busy.push(*s);
    }
    proof {
        assert(busy@ =~= spec_busy_of(*network_prefix));
    }
    let bits = network_prefix.prefix.family.bits();
    let assigned = match find_free_block(
        &network_prefix.prefix,
        network_prefix.num_reserved,
        bits,
        &used,
        &busy,
    ) {
        Some(a) => a,
        None => {
            return Err(AllocationError::ResourceExhausted);
        },
    };
    proof {
        vstd::arithmetic::power2::lemma_pow2_pos(0nat);
        vstd::arithmetic::power2::lemma2_to64();
    }
    let address = host_ip(&assigned);
    let row = InstanceAddress { instance_id, address, segment_id, prefix: assigned };
    let ghost pre_rows = table.rows@;
    table.rows.push(row);
    iface.ip_addrs.push((network_prefix.id, address));
    iface.interface_prefixes.push((network_prefix.id, assigned));
    proof {
        assert(table.rows@.drop_last() =~= pre_rows);
        assert forall|i: int| 0 <= i < table.rows@.len() implies (
        #[trigger] table.rows@[i]).prefix.wf() by {
            if i < pre_rows.len() {
                assert(table.rows@[i] == pre_rows[i]);
            }
        }
    }
    Ok(AddressNet { addr: address, len: assigned.len, family: assigned.family })
}

/// The used prefixes the table reports are exactly those of its rows; this
/// ties the exec scan to the recursive description.
proof fn lemma_used_prefixes_from_table(rows: Seq<InstanceAddress>, segment_id: u128)
    ensures
        forall|j: int|
            0 <= j < rows.len() && (#[trigger] rows[j]).segment_id == segment_id
                ==> spec_used_prefixes(rows, segment_id).contains(rows[j].prefix),
{
    assert forall|j: int|
        0 <= j < rows.len() && (#[trigger] rows[j]).segment_id == segment_id implies
        spec_used_prefixes(rows, segment_id).contains(rows[j].prefix) by {
        lemma_used_prefixes_contains(rows, segment_id, j);
    }
}

/// What every row inserted for an instance satisfies: it belongs to the
/// instance, to a known segment with exactly one prefix, and its network
/// lies inside that prefix with the address inside the network.
pub open spec fn spec_row_served(
    row: InstanceAddress,
    segments: Seq<NetworkSegment>,
    instance_id: u128,
) -> bool {
    &&& row.instance_id == instance_id
    &&& row.prefix.wf()
    &&& row.prefix.spec_contains(row.address as int)
    &&& exists|j: int|
        0 <= j < segments.len() && (#[trigger] segments[j]).id == row.segment_id
            && segments[j].prefixes@.len() == 1
            && segments[j].prefixes@[0].prefix.spec_contains_prefix(row.prefix)
}

/// Whether the interface at `i` still needs an address and names segment
/// `sid`.
pub open spec fn spec_iface_pending(
    interfaces: Seq<InstanceInterfaceConfig>,
    i: int,
    sid: u128,
) -> bool {
    &&& 0 <= i < interfaces.len()
    &&& interfaces[i].ip_addrs@.len() == 0
    &&& interfaces[i].network_segment_id == Some(sid)
}

/// [`spec_allocator_assigned`] against the rows before `k`, with the row at
/// `k` as the assignment.
pub open spec fn spec_allocator_assigned_at(
    rows: Seq<InstanceAddress>,
    k: int,
    pre_if: InstanceInterfaceConfig,
    post_if: InstanceInterfaceConfig,
    instance_id: u128,
    segment_id: u128,
    np: NetworkPrefix,
    a: AddressNet,
) -> bool {
    spec_allocator_assigned(
        rows.take(k),
        rows.take(k + 1),
        pre_if,
        post_if,
        instance_id,
        segment_id,
        np,
        a,
    )
}

/// How the pending interface `pre_if` was served, with segment `j` as the
/// witness: the row at `k` of the final table is its assignment, decided
/// against exactly the rows before `k`. A host-inband segment adopts the
/// host's address under the whole segment prefix, and a pickup that matched
/// several addresses is on the warning list; any other segment gets the
/// allocator's lowest free host block.
pub open spec fn spec_interface_assigned_at(
    pre_if: InstanceInterfaceConfig,
    post_if: InstanceInterfaceConfig,
    machine: &Machine,
    segments: Seq<NetworkSegment>,
    instance_id: u128,
    warnings: Seq<u128>,
    rows: Seq<InstanceAddress>,
    k: int,
    j: int,
) -> bool {
    let seg = segments[j];
    let np = seg.prefixes@[0];
    &&& 0 <= j < segments.len()
    &&& pre_if.network_segment_id == Some(seg.id)
    &&& seg.prefixes@.len() == 1
    &&& 0 <= k < rows.len()
    &&& if seg.segment_type == NetworkSegmentType::HostInband {
        exists|a: AddressNet, m: bool|
            spec_host_pick_some(machine, pre_if, post_if, np, seq![a], m) && rows[k] == (
            InstanceAddress { instance_id, address: a.addr, segment_id: seg.id, prefix: np.prefix })
                && (m ==> warnings.contains(np.id))
    } else {
        exists|a: AddressNet|
            spec_allocator_assigned_at(rows, k, pre_if, post_if, instance_id, seg.id, np, a)
    }
}

/// See [`spec_interface_assigned_at`]: some segment serves the interface.
pub open spec fn spec_interface_assigned(
    pre_if: InstanceInterfaceConfig,
    post_if: InstanceInterfaceConfig,
    machine: &Machine,
    segments: Seq<NetworkSegment>,
    instance_id: u128,
    warnings: Seq<u128>,
    rows: Seq<InstanceAddress>,
    k: int,
) -> bool {
    exists|j: int|
        spec_interface_assigned_at(
            pre_if,
            post_if,
            machine,
            segments,
            instance_id,
            warnings,
            rows,
            k,
            j,
        )
}

/// A pending interface whose named segment is absent or has no prefix.
pub open spec fn spec_no_prefix_for(
    interfaces: Seq<InstanceInterfaceConfig>,
    segments: Seq<NetworkSegment>,
    v: u128,
    i: int,
) -> bool {
    &&& spec_iface_pending(interfaces, i, v)
    &&& ((forall|j: int| 0 <= j < segments.len() ==> (#[trigger] segments[j]).id != v) || exists|
        j: int,
    |
        0 <= j < segments.len() && (#[trigger] segments[j]).id == v && segments[j].prefixes@.len()
            == 0)
}

/// A pending interface whose named segment carries more than one prefix.
pub open spec fn spec_many_prefixes_for(
    interfaces: Seq<InstanceInterfaceConfig>,
    segments: Seq<NetworkSegment>,
    v: u128,
    i: int,
    j: int,
) -> bool {
    &&& spec_iface_pending(interfaces, i, v)
    &&& 0 <= j < segments.len()
    &&& segments[j].id == v
    &&& segments[j].prefixes@.len() > 1
}

/// A pending host-inband interface whose host has no usable address: either
/// no host interface sits on the segment, or the unique one has no address
/// inside the prefix.
pub open spec fn spec_host_unavailable_for(
    interfaces: Seq<InstanceInterfaceConfig>,
    machine: &Machine,
    segments: Seq<NetworkSegment>,
    i: int,
    j: int,
) -> bool {
    &&& 0 <= j < segments.len()
    &&& spec_iface_pending(interfaces, i, segments[j].id)
    &&& segments[j].segment_type == NetworkSegmentType::HostInband
    &&& segments[j].prefixes@.len() == 1
    &&& ((forall|h: int|
        0 <= h < machine.interfaces@.len() ==> !spec_interface_matches(
            #[trigger] machine.interfaces@[h],
            interfaces[i],
        )) || exists|h: int|
        spec_host_without_address(machine, interfaces[i], segments[j].prefixes@[0], h))
}

/// A pending host-inband interface with several host interfaces on its
/// segment.
pub open spec fn spec_host_ambiguous_for(
    interfaces: Seq<InstanceInterfaceConfig>,
    machine: &Machine,
    segments: Seq<NetworkSegment>,
    v: u128,
    i: int,
    j: int,
    h1: int,
    h2: int,
) -> bool {
    &&& spec_iface_pending(interfaces, i, v)
    &&& 0 <= j < segments.len()
    &&& segments[j].id == v
    &&& segments[j].segment_type == NetworkSegmentType::HostInband
    &&& segments[j].prefixes@.len() == 1
    &&& 0 <= h1 < h2 < machine.interfaces@.len()
    &&& spec_interface_matches(machine.interfaces@[h1], interfaces[i])
    &&& spec_interface_matches(machine.interfaces@[h2], interfaces[i])
}

/// One exhaustion witness: `mid` extends the table with rows this call had
/// already granted, and the pending interface `i`'s segment `j` then holds
/// no free host block.
pub open spec fn spec_exhausted_witness(
    old_rows: Seq<InstanceAddress>,
    interfaces: Seq<InstanceInterfaceConfig>,
    segments: Seq<NetworkSegment>,
    instance_id: u128,
    mid: Seq<InstanceAddress>,
    i: int,
    j: int,
) -> bool {
    let seg = segments[j];
    let np = seg.prefixes@[0];
    &&& mid.len() >= old_rows.len()
    &&& mid.take(old_rows.len() as int) == old_rows
    &&& (forall|k: int|
        old_rows.len() <= k < mid.len() ==> spec_row_served(
            #[trigger] mid[k],
            segments,
            instance_id,
        ))
    &&& 0 <= j < segments.len()
    &&& spec_iface_pending(interfaces, i, seg.id)
    &&& seg.segment_type != NetworkSegmentType::HostInband
    &&& seg.prefixes@.len() == 1
    &&& (forall|b: int|
        !is_free_block(
            np.prefix,
            np.num_reserved as int,
            np.prefix.family.spec_bits(),
            spec_used_prefixes(mid, seg.id),
            spec_busy_of(np),
            b,
        ))
}

/// Exhaustion mid-flight: after rows this call had already granted, some
/// pending interface's segment prefix holds no free host block.
pub open spec fn spec_exhausted_during(
    old_rows: Seq<InstanceAddress>,
    interfaces: Seq<InstanceInterfaceConfig>,
    segments: Seq<NetworkSegment>,
    instance_id: u128,
) -> bool {
    exists|mid: Seq<InstanceAddress>, i: int, j: int|
        spec_exhausted_witness(old_rows, interfaces, segments, instance_id, mid, i, j)
}

/// Every way [`allocate`] fails, each tied to its cause.
pub open spec fn spec_allocate_err(
    e: AllocationError,
    interfaces: Seq<InstanceInterfaceConfig>,
    machine: &Machine,
    segments: Seq<NetworkSegment>,
    using_vpc_prefix: Seq<u128>,
    old_rows: Seq<InstanceAddress>,
    instance_id: u128,
) -> bool {
    match e {
        AllocationError::NetworkSegmentNotAllocated => exists|i: int|
            0 <= i < interfaces.len() && (#[trigger] interfaces[i]).network_segment_id is None,
        AllocationError::InvalidConfiguration(cve) => (cve
            == ConfigValidationError::NetworkSegmentUnavailableOnHost && exists|i: int, j: int|
            spec_host_unavailable_for(interfaces, machine, segments, i, j)) || spec_validate_err(
            segments,
            interfaces.len() as int,
            using_vpc_prefix,
            cve,
        ),
        AllocationError::FindOneReturnedNoResults(v) => exists|i: int|
            spec_no_prefix_for(interfaces, segments, v, i),
        AllocationError::FindOneReturnedManyResults(v) => (exists|i: int, j: int|
            spec_many_prefixes_for(interfaces, segments, v, i, j)) || (exists|
            i: int,
            j: int,
            h1: int,
            h2: int,
        |
            spec_host_ambiguous_for(interfaces, machine, segments, v, i, j, h1, h2)),
        AllocationError::ResourceExhausted => spec_exhausted_during(
            old_rows,
            interfaces,
            segments,
            instance_id,
        ),
    }
}

/// What a successful [`allocate`] guarantees: rows only appended and each
/// served; interfaces that already held addresses unchanged; every other
/// interface carrying exactly its pickup or allocation; warnings only
/// appended.
pub open spec fn spec_allocate_ok(
    pre_ifaces: Seq<InstanceInterfaceConfig>,
    post_ifaces: Seq<InstanceInterfaceConfig>,
    machine: &Machine,
    segments: Seq<NetworkSegment>,
    instance_id: u128,
    old_rows: Seq<InstanceAddress>,
    rows: Seq<InstanceAddress>,
    old_warnings: Seq<u128>,
    warnings: Seq<u128>,
) -> bool {
    &&& post_ifaces.len() == pre_ifaces.len()
    &&& rows.len() >= old_rows.len()
    &&& rows.take(old_rows.len() as int) == old_rows
    &&& (forall|k: int|
        old_rows.len() <= k < rows.len() ==> spec_row_served(
            #[trigger] rows[k],
            segments,
            instance_id,
        ))
    &&& (forall|i: int|
        0 <= i < pre_ifaces.len() ==> if (#[trigger] pre_ifaces[i]).ip_addrs@.len() > 0 {
            post_ifaces[i] == pre_ifaces[i]
        } else {
            exists|k: int|
                old_rows.len() <= k && spec_interface_assigned(
                    pre_ifaces[i],
                    post_ifaces[i],
                    machine,
                    segments,
                    instance_id,
                    warnings,
                    rows,
                    k,
                )
        })
    &&& warnings.len() >= old_warnings.len()
    &&& warnings.take(old_warnings.len() as int) == old_warnings
}

/// Exit lemmas: each ties one concrete error to [`spec_allocate_err`].
proof fn lemma_err_not_allocated(
    interfaces: Seq<InstanceInterfaceConfig>,
    machine: &Machine,
    segments: Seq<NetworkSegment>,
    using_vpc_prefix: Seq<u128>,
    old_rows: Seq<InstanceAddress>,
    instance_id: u128,
    i: int,
)
    requires
        0 <= i < interfaces.len(),
        interfaces[i].network_segment_id is None,
    ensures
        spec_allocate_err(
            AllocationError::NetworkSegmentNotAllocated,
            interfaces,
            machine,
            segments,
            using_vpc_prefix,
            old_rows,
            instance_id,
        ),
{
}

proof fn lemma_err_validate(
    interfaces: Seq<InstanceInterfaceConfig>,
    machine: &Machine,
    segments: Seq<NetworkSegment>,
    using_vpc_prefix: Seq<u128>,
    old_rows: Seq<InstanceAddress>,
    instance_id: u128,
    cve: ConfigValidationError,
)
    requires
        spec_validate_err(segments, interfaces.len() as int, using_vpc_prefix, cve),
    ensures
        spec_allocate_err(
            AllocationError::InvalidConfiguration(cve),
            interfaces,
            machine,
            segments,
            using_vpc_prefix,
            old_rows,
            instance_id,
        ),
{
}

proof fn lemma_err_no_prefix(
    interfaces: Seq<InstanceInterfaceConfig>,
    machine: &Machine,
    segments: Seq<NetworkSegment>,
    using_vpc_prefix: Seq<u128>,
    old_rows: Seq<InstanceAddress>,
    instance_id: u128,
    v: u128,
    i: int,
)
    requires
        spec_no_prefix_for(interfaces, segments, v, i),
    ensures
        spec_allocate_err(
            AllocationError::FindOneReturnedNoResults(v),
            interfaces,
            machine,
            segments,
            using_vpc_prefix,
            old_rows,
            instance_id,
        ),
{
    let e = AllocationError::FindOneReturnedNoResults(v);
    assert(e->FindOneReturnedNoResults_0 == v);
    assert(spec_no_prefix_for(interfaces, segments, e->FindOneReturnedNoResults_0, i));
    assert(exists|i2: int|
        spec_no_prefix_for(interfaces, segments, e->FindOneReturnedNoResults_0, i2));
}

proof fn lemma_err_many_prefixes(
    interfaces: Seq<InstanceInterfaceConfig>,
    machine: &Machine,
    segments: Seq<NetworkSegment>,
    using_vpc_prefix: Seq<u128>,
    old_rows: Seq<InstanceAddress>,
    instance_id: u128,
    v: u128,
    i: int,
    j: int,
)
    requires
        spec_many_prefixes_for(interfaces, segments, v, i, j),
    ensures
        spec_allocate_err(
            AllocationError::FindOneReturnedManyResults(v),
            interfaces,
            machine,
            segments,
            using_vpc_prefix,
            old_rows,
            instance_id,
        ),
{
    let e = AllocationError::FindOneReturnedManyResults(v);
    assert(e->FindOneReturnedManyResults_0 == v);
    assert(spec_many_prefixes_for(interfaces, segments, e->FindOneReturnedManyResults_0, i, j));
    assert(exists|i2: int, j2: int|
        spec_many_prefixes_for(interfaces, segments, e->FindOneReturnedManyResults_0, i2, j2));
}

proof fn lemma_err_host_ambiguous(
    interfaces: Seq<InstanceInterfaceConfig>,
    machine: &Machine,
    segments: Seq<NetworkSegment>,
    using_vpc_prefix: Seq<u128>,
    old_rows: Seq<InstanceAddress>,
    instance_id: u128,
    v: u128,
    i: int,
    j: int,
    h1: int,
    h2: int,
)
    requires
        spec_host_ambiguous_for(interfaces, machine, segments, v, i, j, h1, h2),
    ensures
        spec_allocate_err(
            AllocationError::FindOneReturnedManyResults(v),
            interfaces,
            machine,
            segments,
            using_vpc_prefix,
            old_rows,
            instance_id,
        ),
{
    let e = AllocationError::FindOneReturnedManyResults(v);
    assert(e->FindOneReturnedManyResults_0 == v);
    assert(spec_host_ambiguous_for(
        interfaces,
        machine,
        segments,
        e->FindOneReturnedManyResults_0,
        i,
        j,
        h1,
        h2,
    ));
    assert(exists|i2: int, j2: int, g1: int, g2: int|
        spec_host_ambiguous_for(
            interfaces,
            machine,
            segments,
            e->FindOneReturnedManyResults_0,
            i2,
            j2,
            g1,
            g2,
        ));
}

proof fn lemma_err_host_unavailable(
    interfaces: Seq<InstanceInterfaceConfig>,
    machine: &Machine,
    segments: Seq<NetworkSegment>,
    using_vpc_prefix: Seq<u128>,
    old_rows: Seq<InstanceAddress>,
    instance_id: u128,
    i: int,
    j: int,
)
    requires
        spec_host_unavailable_for(interfaces, machine, segments, i, j),
    ensures
        spec_allocate_err(
            AllocationError::InvalidConfiguration(
                ConfigValidationError::NetworkSegmentUnavailableOnHost,
            ),
            interfaces,
            machine,
            segments,
            using_vpc_prefix,
            old_rows,
            instance_id,
        ),
{
}

proof fn lemma_err_exhausted(
    interfaces: Seq<InstanceInterfaceConfig>,
    machine: &Machine,
    segments: Seq<NetworkSegment>,
    using_vpc_prefix: Seq<u128>,
    old_rows: Seq<InstanceAddress>,
    instance_id: u128,
    mid: Seq<InstanceAddress>,
    i: int,
    j: int,
)
    requires
        spec_exhausted_witness(old_rows, interfaces, segments, instance_id, mid, i, j),
    ensures
        spec_allocate_err(
            AllocationError::ResourceExhausted,
            interfaces,
            machine,
            segments,
            using_vpc_prefix,
            old_rows,
            instance_id,
        ),
{
}

/// An interface's recorded assignment stands as later rows and warnings are
/// appended.
proof fn lemma_assigned_stable(
    pre_if: InstanceInterfaceConfig,
    post_if: InstanceInterfaceConfig,
    machine: &Machine,
    segments: Seq<NetworkSegment>,
    instance_id: u128,
    ws1: Seq<u128>,
    ws2: Seq<u128>,
    rows1: Seq<InstanceAddress>,
    rows2: Seq<InstanceAddress>,
    k: int,
)
    requires
        spec_interface_assigned(pre_if, post_if, machine, segments, instance_id, ws1, rows1, k),
        rows2.len() >= rows1.len(),
        rows2.take(rows1.len() as int) == rows1,
        forall|x: u128| ws1.contains(x) ==> ws2.contains(x),
    ensures
        spec_interface_assigned(pre_if, post_if, machine, segments, instance_id, ws2, rows2, k),
{
    let j = choose|j: int|
        spec_interface_assigned_at(
            pre_if,
            post_if,
            machine,
            segments,
            instance_id,
            ws1,
            rows1,
            k,
            j,
        );
    let seg = segments[j];
    let np = seg.prefixes@[0];
    assert(rows2.take(rows1.len() as int)[k] == rows1[k]);
    if seg.segment_type == NetworkSegmentType::HostInband {
        let (a, m) = choose|a: AddressNet, m: bool|
            spec_host_pick_some(machine, pre_if, post_if, np, seq![a], m) && rows1[k] == (
            InstanceAddress { instance_id, address: a.addr, segment_id: seg.id, prefix: np.prefix })
                && (m ==> ws1.contains(np.id));
        assert(rows2[k] == rows1[k]);
        assert(spec_interface_assigned_at(
            pre_if,
            post_if,
            machine,
            segments,
            instance_id,
            ws2,
            rows2,
            k,
            j,
        ));
    } else {
        let a = choose|a: AddressNet|
            spec_allocator_assigned_at(rows1, k, pre_if, post_if, instance_id, seg.id, np, a);
        assert(rows2.take(k) =~= rows1.take(k));
        assert(rows2.take(k + 1) =~= rows1.take(k + 1));
        assert(spec_allocator_assigned_at(rows2, k, pre_if, post_if, instance_id, seg.id, np, a));
        assert(spec_interface_assigned_at(
            pre_if,
            post_if,
            machine,
            segments,
            instance_id,
            ws2,
            rows2,
            k,
            j,
        ));
    }
}

/// Assign addresses for every interface of a tenant network configuration.
///
/// The whole assignment happens under the address table's exclusive lock,
/// inside a savepoint: on any error the table and the warning list are left
/// untouched and the error propagates, tied below to its cause. On success,
/// interfaces that already held addresses come back unchanged, every other
/// interface carries exactly its pickup or allocation, every inserted row is
/// served from its segment's single prefix, and host pickups that matched
/// several addresses are appended to `warnings` by prefix id.
#[verifier::rlimit(100)]
pub fn allocate(
    table: &mut AddressTable,
    instance_id: u128,
    config: InstanceNetworkConfig,
    machine: &Machine,
    segments: &Vec<NetworkSegment>,
    segment_ids_using_vpc_prefix: &Vec<u128>,
    warnings: &mut Vec<u128>,
) -> (r: Result<InstanceNetworkConfig, AllocationError>)
    requires
        old(table).wf(),
        forall|i: int, j: int|
            0 <= i < segments@.len() && 0 <= j < (#[trigger] segments@[i]).prefixes@.len() ==> (
            #[trigger] segments@[i].prefixes@[j]).prefix.wf(),
    ensures
        final(table).wf(),
        r is Err ==> final(table).rows@ == old(table).rows@ && final(warnings)@ == old(warnings)@,
        // an interface without a segment is the one thing refused up front
        (r matches Err(AllocationError::NetworkSegmentNotAllocated)) <==> (exists|i: int|
            0 <= i < config.interfaces@.len() && (
            #[trigger] config.interfaces@[i]).network_segment_id is None),
        // when every interface names a segment, an invalid segment set is refused
        ((forall|i: int|
            0 <= i < config.interfaces@.len() ==> (
            #[trigger] config.interfaces@[i]).network_segment_id is Some) && !spec_validate_ok(
            segments@,
            config.interfaces@.len() as int,
            segment_ids_using_vpc_prefix@,
        )) ==> (r matches Err(AllocationError::InvalidConfiguration(_))),
        match r {
            Ok(c) => spec_allocate_ok(
                config.interfaces@,
                c.interfaces@,
                machine,
                segments@,
                instance_id,
                old(table).rows@,
                final(table).rows@,
                old(warnings)@,
                final(warnings)@,
            ),
            Err(e) => spec_allocate_err(
                e,
                config.interfaces@,
                machine,
                segments@,
                segment_ids_using_vpc_prefix@,
                old(table).rows@,
                instance_id,
            ),
        },
{
    // every interface must have a segment allocated before addresses exist
    let mut pre: usize = 0;
    let n_ifaces = config.interfaces.len();
    while pre < n_ifaces
        invariant
            old(table).wf(),
            table.wf(),
            table.rows@ == old(table).rows@,
            warnings@ == old(warnings)@,
            n_ifaces == config.interfaces@.len(),
            pre <= n_ifaces,
            forall|j: int|
                0 <= j < pre ==> (#[trigger] config.interfaces@[j]).network_segment_id is Some,
        decreases n_ifaces - pre,
    {
        if config.interfaces[pre].network_segment_id.is_none() {
            proof {
                lemma_err_not_allocated(
                    config.interfaces@,
                    machine,
                    segments@,
                    segment_ids_using_vpc_prefix@,
                    old(table).rows@,
                    instance_id,
                    pre as int,
                );
            }
            return Err(AllocationError::NetworkSegmentNotAllocated);
        }
        pre = pre + 1;
    }
    if let Err(e) = validate(segments, n_ifaces, segment_ids_using_vpc_prefix) {
        proof {
            if let AllocationError::InvalidConfiguration(cve) = e {
                lemma_err_validate(
                    config.interfaces@,
                    machine,
                    segments@,
                    segment_ids_using_vpc_prefix@,
                    old(table).rows@,
                    instance_id,
                    cve,
                );
            }
        }
        return Err(e);
    }
    // work on copies: the savepoint's state, and the warnings this call emits
    let mut work = table.duplicate();
    let mut new_warnings: Vec<u128> = Vec::new();
    let mut cfg = config;
    let ghost cfg0 = cfg.interfaces@;
    let ghost base_len = old(table).rows@.len() as int;
    let mut i: usize = 0;
    while i < n_ifaces
        invariant
            old(table).wf(),
            table.wf(),
            table.rows@ == old(table).rows@,
            warnings@ == old(warnings)@,
            base_len == old(table).rows@.len() as int,
            cfg0 == config.interfaces@,
            n_ifaces == cfg.interfaces@.len(),
            n_ifaces == cfg0.len(),
            i <= n_ifaces,
            spec_validate_ok(segments@, n_ifaces as int, segment_ids_using_vpc_prefix@),
            forall|i2: int| 0 <= i2 < n_ifaces ==> (#[trigger] cfg0[i2]).network_segment_id is Some,
            work.wf(),
            work.rows@.len() >= base_len,
            work.rows@.take(base_len) == old(table).rows@,
            forall|i2: int, j: int|
                0 <= i2 < segments@.len() && 0 <= j < (#[trigger] segments@[i2]).prefixes@.len()
                    ==> (#[trigger] segments@[i2].prefixes@[j]).prefix.wf(),
            forall|k: int|
                base_len <= k < work.rows@.len() ==> spec_row_served(
                    #[trigger] work.rows@[k],
                    segments@,
                    instance_id,
                ),
            forall|i2: int| i <= i2 < n_ifaces ==> cfg.interfaces@[i2] == #[trigger] cfg0[i2],
            forall|i2: int|
                0 <= i2 < i ==> if (#[trigger] cfg0[i2]).ip_addrs@.len() > 0 {
                    cfg.interfaces@[i2] == cfg0[i2]
                } else {
                    exists|k: int|
                        base_len <= k && spec_interface_assigned(
                            cfg0[i2],
                            cfg.interfaces@[i2],
                            machine,
                            segments@,
                            instance_id,
                            new_warnings@,
                            work.rows@,
                            k,
                        )
                },
        decreases n_ifaces - i,
    {
        let ghost cfgpre = cfg.interfaces@;
        let ghost work0 = work.rows@;
        let ghost ws0 = new_warnings@;
        proof {
            // bridge the loop facts to the caller-facing views
            assert(config.interfaces@ == cfg0);
            assert forall|i2: int| 0 <= i2 < config.interfaces@.len() implies (
            #[trigger] config.interfaces@[i2]).network_segment_id is Some by {
                assert(config.interfaces@[i2] == cfg0[i2]);
            }
            assert(spec_validate_ok(
                segments@,
                config.interfaces@.len() as int,
                segment_ids_using_vpc_prefix@,
            ));
        }
        let mut iface = cfg.interfaces.remove(i);
        if iface.ip_addrs.len() > 0 {
            // addresses already assigned: leave the interface alone
            cfg.interfaces.insert(i, iface);
            proof {
                assert(cfg.interfaces@ =~= cfgpre);
            }
            i = i + 1;
            continue ;
        }
        let fallback: u128 = 0;
        let segment_id = match &iface.network_segment_id {
            Some(sid) => *sid,
            None => fallback,
        };
        proof {
            assert(iface == cfg0[i as int]);
            assert(spec_iface_pending(cfg0, i as int, segment_id));
        }
        // the segment backing this interface
        let seg_idx = find_segment_index(segments, segment_id);
        let si = match seg_idx {
            Some(si) => si,
            None => {
                proof {
                    assert(spec_no_prefix_for(config.interfaces@, segments@, segment_id, i as int));
                    lemma_err_no_prefix(
                        config.interfaces@,
                        machine,
                        segments@,
                        segment_ids_using_vpc_prefix@,
                        old(table).rows@,
                        instance_id,
                        segment_id,
                        i as int,
                    );
                }
                return Err(AllocationError::FindOneReturnedNoResults(segment_id));
            },
        };
        let segment = &segments[si];
        if segment.prefixes.len() > 1 {
            proof {
                assert(spec_many_prefixes_for(
                    config.interfaces@,
                    segments@,
                    segment.id,
                    i as int,
                    si as int,
                ));
                lemma_err_many_prefixes(
                    config.interfaces@,
                    machine,
                    segments@,
                    segment_ids_using_vpc_prefix@,
                    old(table).rows@,
                    instance_id,
                    segment.id,
                    i as int,
                    si as int,
                );
            }
            return Err(AllocationError::FindOneReturnedManyResults(segment.id));
        }
        if segment.prefixes.len() == 0 {
            proof {
                assert(segments@[si as int].id == segment.id
                    && segments@[si as int].prefixes@.len() == 0);
                assert(spec_no_prefix_for(config.interfaces@, segments@, segment.id, i as int));
                lemma_err_no_prefix(
                    config.interfaces@,
                    machine,
                    segments@,
                    segment_ids_using_vpc_prefix@,
                    old(table).rows@,
                    instance_id,
                    segment.id,
                    i as int,
                );
            }
            return Err(AllocationError::FindOneReturnedNoResults(segment.id));
        }
        let network_prefix = segment.prefixes[0];
        if segment.segment_type == NetworkSegmentType::HostInband {
            // the instance interface is the host interface; adopt its address
            let ghost iface0 = iface;
            let (addrs, multiple) = match assign_ips_from_host(
                &mut iface,
                machine,
                &network_prefix,
            ) {
                Ok(x) => x,
                Err(e) => {
                    match &e {
                        AllocationError::FindOneReturnedManyResults(v) => {
                            proof {
                                assert(e == AllocationError::FindOneReturnedManyResults(
                                    segment.id,
                                ));
                                let (h1, h2) = choose|h1: int, h2: int|
                                    0 <= h1 < h2 < machine.interfaces@.len()
                                        && spec_interface_matches(
                                        #[trigger] machine.interfaces@[h1],
                                        iface0,
                                    ) && spec_interface_matches(
                                        #[trigger] machine.interfaces@[h2],
                                        iface0,
                                    );
                                assert(spec_host_ambiguous_for(
                                    config.interfaces@,
                                    machine,
                                    segments@,
                                    segment.id,
                                    i as int,
                                    si as int,
                                    h1,
                                    h2,
                                ));
                                lemma_err_host_ambiguous(
                                    config.interfaces@,
                                    machine,
                                    segments@,
                                    segment_ids_using_vpc_prefix@,
                                    old(table).rows@,
                                    instance_id,
                                    segment.id,
                                    i as int,
                                    si as int,
                                    h1,
                                    h2,
                                );
                            }
                        },
                        _ => {
                            proof {
                                assert(spec_host_unavailable_for(
                                    config.interfaces@,
                                    machine,
                                    segments@,
                                    i as int,
                                    si as int,
                                ));
                                lemma_err_host_unavailable(
                                    config.interfaces@,
                                    machine,
                                    segments@,
                                    segment_ids_using_vpc_prefix@,
                                    old(table).rows@,
                                    instance_id,
                                    i as int,
                                    si as int,
                                );
                            }
                        },
                    }
                    return Err(e);
                },
            };
            proof {
                let w = choose|w: int|
                    spec_host_pick(
                        machine,
                        iface0,
                        iface,
                        network_prefix,
                        addrs@,
                        multiple,
                        w,
                    );
                assert(addrs@.len() == 1);
            }
            let a = addrs[0];
            if multiple {
                // several host addresses matched; surface a warning
                new_warnings.push(network_prefix.id);
            }
            let row = InstanceAddress {
                instance_id,
                address: a.addr,
                segment_id: segment.id,
                prefix: network_prefix.prefix,
            };
            work.rows.push(row);
            proof {
                assert(network_prefix.prefix.spec_contains_prefix(network_prefix.prefix));
                assert(spec_row_served(row, segments@, instance_id));
                assert forall|k: int| 0 <= k < work.rows@.len() implies (
                #[trigger] work.rows@[k]).prefix.wf() by {
                    if k < work0.len() {
                        assert(work.rows@[k] == work0[k]);
                    }
                }
                assert(work.rows@.take(base_len) =~= old(table).rows@);
                assert(work.rows@.take(work0.len() as int) =~= work0);
                assert(addrs@ =~= seq![a]);
                if multiple {
                    assert(new_warnings@[ws0.len() as int] == network_prefix.id);
                }
                assert(spec_interface_assigned_at(
                    cfg0[i as int],
                    iface,
                    machine,
                    segments@,
                    instance_id,
                    new_warnings@,
                    work.rows@,
                    work0.len() as int,
                    si as int,
                ));
            }
        } else {
            match assign_ips_from_allocator(
                &mut work,
                &mut iface,
                instance_id,
                segment.id,
                &network_prefix,
            ) {
                Ok(a) => {
                    proof {
                        let row = work.rows@.last();
                        assert(spec_row_served(row, segments@, instance_id));
                        assert(work.rows@.drop_last() == work0);
                        assert forall|k: int|
                            base_len <= k < work.rows@.len() implies spec_row_served(
                            #[trigger] work.rows@[k],
                            segments@,
                            instance_id,
                        ) by {
                            if k < work0.len() {
                                assert(work.rows@[k] == work0[k]);
                            }
                        }
                        assert(work.rows@.take(base_len) =~= old(table).rows@);
                        assert(work.rows@.take(work0.len() as int) =~= work0);
                        assert(work.rows@.take(work0.len() as int + 1) =~= work.rows@);
                        assert(spec_allocator_assigned_at(
                            work.rows@,
                            work0.len() as int,
                            cfg0[i as int],
                            iface,
                            instance_id,
                            segment.id,
                            network_prefix,
                            a,
                        ));
                        assert(spec_interface_assigned_at(
                            cfg0[i as int],
                            iface,
                            machine,
                            segments@,
                            instance_id,
                            new_warnings@,
                            work.rows@,
                            work0.len() as int,
                            si as int,
                        ));
                    }
                },
                Err(e) => {
                    proof {
                        assert(spec_exhausted_witness(
                            old(table).rows@,
                            cfg0,
                            segments@,
                            instance_id,
                            work.rows@,
                            i as int,
                            si as int,
                        ));
                        lemma_err_exhausted(
                            config.interfaces@,
                            machine,
                            segments@,
                            segment_ids_using_vpc_prefix@,
                            old(table).rows@,
                            instance_id,
                            work.rows@,
                            i as int,
                            si as int,
                        );
                    }
                    return Err(e);
                },
            }
        }
        cfg.interfaces.insert(i, iface);
        proof {
            assert(cfg.interfaces@ =~= cfgpre.update(i as int, iface));
            assert forall|x: u128| ws0.contains(x) implies new_warnings@.contains(x) by {
                let idx = choose|idx: int| 0 <= idx < ws0.len() && ws0[idx] == x;
                assert(new_warnings@[idx] == x);
            }
            assert forall|i2: int|
                0 <= i2 < i + 1 implies if (#[trigger] cfg0[i2]).ip_addrs@.len() > 0 {
                cfg.interfaces@[i2] == cfg0[i2]
            } else {
                exists|k: int|
                    base_len <= k && spec_interface_assigned(
                        cfg0[i2],
                        cfg.interfaces@[i2],
                        machine,
                        segments@,
                        instance_id,
                        new_warnings@,
                        work.rows@,
                        k,
                    )
            } by {
                if i2 < i {
                    assert(cfg.interfaces@[i2] == cfgpre[i2]);
                    if cfg0[i2].ip_addrs@.len() == 0 {
                        let k = choose|k: int|
                            base_len <= k && spec_interface_assigned(
                                cfg0[i2],
                                cfgpre[i2],
                                machine,
                                segments@,
                                instance_id,
                                ws0,
                                work0,
                                k,
                            );
                        lemma_assigned_stable(
                            cfg0[i2],
                            cfgpre[i2],
                            machine,
                            segments@,
                            instance_id,
                            ws0,
                            new_warnings@,
                            work0,
                            work.rows@,
                            k,
                        );
                    }
                } else {
                    assert(cfg.interfaces@[i2] == iface);
                    if cfg0[i2].ip_addrs@.len() == 0 {
                        assert(spec_interface_assigned_at(
                            cfg0[i2],
                            cfg.interfaces@[i2],
                            machine,
                            segments@,
                            instance_id,
                            new_warnings@,
                            work.rows@,
                            work0.len() as int,
                            si as int,
                        ));
                        assert(spec_interface_assigned(
                            cfg0[i2],
                            cfg.interfaces@[i2],
                            machine,
                            segments@,
                            instance_id,
                            new_warnings@,
                            work.rows@,
                            work0.len() as int,
                        ));
                    }
                }
            }
        }
        i = i + 1;
    }
    // the savepoint commits: adopt the worked state and emit the warnings
    *table = work;
    let ghost emitted = new_warnings@;
    warnings.append(&mut new_warnings);
    proof {
        assert(table.rows@.take(table.rows@.len() as int) =~= table.rows@);
        assert(warnings@.take(old(warnings)@.len() as int) =~= old(warnings)@);
        assert forall|x: u128| emitted.contains(x) implies warnings@.contains(x) by {
            let idx = choose|idx: int| 0 <= idx < emitted.len() && emitted[idx] == x;
            assert(warnings@[old(warnings)@.len() + idx] == x);
        }
        assert forall|i2: int|
            0 <= i2 < n_ifaces && (#[trigger] cfg0[i2]).ip_addrs@.len() == 0 implies exists|k: int|
            base_len <= k && spec_interface_assigned(
                cfg0[i2],
                cfg.interfaces@[i2],
                machine,
                segments@,
                instance_id,
                warnings@,
                table.rows@,
                k,
            ) by {
            let k = choose|k: int|
                base_len <= k && spec_interface_assigned(
                    cfg0[i2],
                    cfg.interfaces@[i2],
                    machine,
                    segments@,
                    instance_id,
                    emitted,
                    table.rows@,
                    k,
                );
            lemma_assigned_stable(
                cfg0[i2],
                cfg.interfaces@[i2],
                machine,
                segments@,
                instance_id,
                emitted,
                warnings@,
                table.rows@,
                table.rows@,
                k,
            );
        }
        assert(spec_allocate_ok(
            config.interfaces@,
            cfg.interfaces@,
            machine,
            segments@,
            instance_id,
            old(table).rows@,
            table.rows@,
            old(warnings)@,
            warnings@,
        ));
    }
    Ok(cfg)
}

/// The first segment holding the id, if any.
fn find_segment_index(segments: &Vec<NetworkSegment>, id: u128) -> (r: Option<usize>)
    ensures
        match r {
            Some(si) => 0 <= si < segments@.len() && segments@[si as int].id == id,
            None => forall|j: int| 0 <= j < segments@.len() ==> (#[trigger] segments@[j]).id != id,
        },
{
    let mut s: usize = 0;
    while s < segments.len()
        invariant
            s <= segments@.len(),
            forall|j: int| 0 <= j < s ==> (#[trigger] segments@[j]).id != id,
        decreases segments@.len() - s,
    {
        if segments[s].id == id {
            return Some(s);
        }
        s = s + 1;
    }
    None
}

/// Allocate the SVI address of a segment: the lowest free host address of
/// its first prefix, with nothing marked busy. The caller persists the
/// address; the table is only read.
pub fn allocate_svi_ip(table: &AddressTable, segment: &NetworkSegment) -> (r: Result<
    (u128, u128),
    AllocationError,
>)
    requires
        table.wf(),
        forall|j: int|
            0 <= j < segment.prefixes@.len() ==> (#[trigger] segment.prefixes@[j]).prefix.wf(),
    ensures
        match r {
            Ok((prefix_id, ip)) => {
                let np = segment.prefixes@[0];
                &&& segment.prefixes@.len() > 0
                &&& prefix_id == np.id
                &&& is_lowest_free_block(
                    np.prefix,
                    np.num_reserved as int,
                    np.prefix.family.spec_bits(),
                    spec_used_prefixes(table.rows@, segment.id),
                    Seq::<u128>::empty(),
                    ip as int,
                )
            },
            Err(e) => {
                &&& e == AllocationError::ResourceExhausted
                &&& segment.prefixes@.len() > 0 ==> forall|b: int|
                    !is_free_block(
                        segment.prefixes@[0].prefix,
                        segment.prefixes@[0].num_reserved as int,
                        segment.prefixes@[0].prefix.family.spec_bits(),
                        spec_used_prefixes(table.rows@, segment.id),
                        Seq::<u128>::empty(),
                        b,
                    )
            },
        },
{
    if segment.prefixes.len() == 0 {
        return Err(AllocationError::ResourceExhausted);
    }
    let np = segment.prefixes[0];
    let used = table.used_prefixes(segment.id);
    let busy: Vec<u128> = Vec::new();
    proof {
        assert(busy@ =~= Seq::<u128>::empty());
    }
    let bits = np.prefix.family.bits();
    match find_free_block(&np.prefix, np.num_reserved, bits, &used, &busy) {
        Some(a) => {
            proof {
                vstd::arithmetic::power2::lemma_pow2_pos(0nat);
                vstd::arithmetic::power2::lemma2_to64();
            }
            let ip = host_ip(&a);
            Ok((np.id, ip))
        },
        None => Err(AllocationError::ResourceExhausted),
    }
}

} // verus!
