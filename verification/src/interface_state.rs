use vstd::prelude::*;

use crate::ip_stack::IpStack;
use crate::network_status::NetworkStatus;

verus! {

/// The parts of the host's interface state that decide reachability: whether
/// a default-route interface is known, and whether IPv4 / IPv6 addresses are
/// usable.
#[derive(Clone, Copy, Debug, PartialEq, Eq, Structural)]
pub struct InterfaceSnapshot {
    pub has_default_route: bool,
    pub have_v4: bool,
    pub have_v6: bool,
}

/// The network is available when a default route exists and at least one IP
/// protocol is usable.
pub open spec fn spec_reachability_from_state(state: InterfaceSnapshot) -> NetworkStatus {
    if state.has_default_route && (state.have_v4 || state.have_v6) {
        NetworkStatus::Available
    } else {
        NetworkStatus::Unavailable
    }
}

/// Reachability derived from the interface state.
pub fn reachability_from_state(state: &InterfaceSnapshot) -> (r: NetworkStatus)
    ensures
        r == spec_reachability_from_state(*state),
{
    if state.has_default_route && (state.have_v4 || state.have_v6) {
        NetworkStatus::Available
    } else {
        NetworkStatus::Unavailable
    }
}

/// IP-stack capability derived from the interface state.
pub fn ip_stack_from_state(state: &InterfaceSnapshot) -> (r: IpStack)
    ensures
        r == IpStack::spec_from_flags(state.have_v4, state.have_v6),
{
    IpStack::from_flags(state.have_v4, state.have_v6)
}

/// Reachability to record for an interface state: the platform's own verdict
/// when it gave one, otherwise the verdict derived from the interface state.
pub fn current_reachability(state: &InterfaceSnapshot, platform: Option<NetworkStatus>) -> (r:
    NetworkStatus)
    ensures
        r == match platform {
            Some(p) => p,
            None => spec_reachability_from_state(*state),
        },
{
    match platform {
        Some(p) => p,
        None => reachability_from_state(state),
    }
}

/// An interface state judged reachable always exposes at least one IP protocol.
pub proof fn lemma_reachable_state_has_ip_stack(state: InterfaceSnapshot)
    requires
        spec_reachability_from_state(state) == NetworkStatus::Available,
    ensures
        IpStack::spec_from_flags(state.have_v4, state.have_v6) != IpStack::NoStack,
{
}

/// Connectivity bit meaning IPv4 reaches the internet.
pub const CONNECTIVITY_IPV4_INTERNET: i32 = 64i32;

/// Connectivity bit meaning IPv6 reaches the internet.
pub const CONNECTIVITY_IPV6_INTERNET: i32 = 1024i32;

/// The platform connectivity flags report internet access over IPv4 or IPv6.
pub open spec fn spec_reachability_from_connectivity(connectivity: i32) -> NetworkStatus {
    if connectivity & CONNECTIVITY_IPV4_INTERNET != 0 || connectivity & CONNECTIVITY_IPV6_INTERNET
        != 0 {
        NetworkStatus::Available
    } else {
        NetworkStatus::Unavailable
    }
}

/// Reachability from a platform connectivity bit set (the network list
/// manager's connectivity value).
pub fn reachability_from_connectivity(connectivity: i32) -> (r: NetworkStatus)
    ensures
        r == spec_reachability_from_connectivity(connectivity),
{
    if connectivity & CONNECTIVITY_IPV4_INTERNET != 0 || connectivity & CONNECTIVITY_IPV6_INTERNET
        != 0 {
        NetworkStatus::Available
    } else {
        NetworkStatus::Unavailable
    }
}

/// The verdict read from the interface state: without a default route the network is
/// never available; without any usable IP protocol it is never available;
/// with a default route and at least one usable protocol it is available.
pub proof fn lemma_reachability_needs_route_and_address(state: InterfaceSnapshot)
    ensures
        !state.has_default_route ==> spec_reachability_from_state(state)
            == NetworkStatus::Unavailable,
        !state.have_v4 && !state.have_v6 ==> spec_reachability_from_state(state)
            == NetworkStatus::Unavailable,
        state.has_default_route && (state.have_v4 || state.have_v6) ==> spec_reachability_from_state(
            state,
        ) == NetworkStatus::Available,
{
}

/// The platform verdict depends only on the two internet bits: any value
/// with the IPv4-internet bit (64) or the IPv6-internet bit (1024) set is
/// `Available`, whatever else is set; any value with neither set is
/// `Unavailable`; and setting or clearing other bits never changes it.
pub proof fn lemma_connectivity_reads_internet_bits(c: i32, other: i32)
    ensures
        spec_reachability_from_connectivity(c | 64) == NetworkStatus::Available,
        spec_reachability_from_connectivity(c | 1024) == NetworkStatus::Available,
        (c & 64 == 0 && c & 1024 == 0) ==> spec_reachability_from_connectivity(c)
            == NetworkStatus::Unavailable,
        other & 64 == 0 && other & 1024 == 0 ==> spec_reachability_from_connectivity(c | other)
            == spec_reachability_from_connectivity(c),
        spec_reachability_from_connectivity(66) == NetworkStatus::Available,
{
    assert((c | 64) & 64 != 0) by (bit_vector);
    assert((c | 1024) & 1024 != 0) by (bit_vector);
    assert(66i32 & 64 != 0) by (bit_vector);
    assert(other & 64 == 0 && other & 1024 == 0 ==> ((c | other) & 64 == c & 64 && (c | other)
        & 1024 == c & 1024)) by (bit_vector);
}

} // verus!
