use vstd::prelude::*;

use crate::ip_stack::IpStack;
use crate::net::NetworkStatusListenerHandle;
use crate::net_error::NetError;
use crate::network_status::NetworkStatus;
use crate::session::SessionSlot;

verus! {

/// The facade's reachability answer: the running session's answer, or
/// `Unavailable` when not started.
pub fn reachability_reply<S, F: FnOnce(&S) -> Result<NetworkStatus, NetError>>(
    slot: &SessionSlot<S>,
    query: F,
) -> (r: Result<NetworkStatus, NetError>)
    requires
        slot@.session matches Some(s) ==> call_requires(query, (&s,)),
    ensures
        match slot@.session {
            Some(s) => call_ensures(query, (&s,), r),
            None => r == Ok::<NetworkStatus, NetError>(NetworkStatus::Unavailable),
        },
{
    match slot.session() {
        Some(s) => query(s),
        None => Ok(NetworkStatus::Unavailable),
    }
}

/// The facade's IP-stack answer: the running session's answer, or `NoStack`
/// when not started.
pub fn ip_stack_reply<S, F: FnOnce(&S) -> Result<IpStack, NetError>>(
    slot: &SessionSlot<S>,
    query: F,
) -> (r: Result<IpStack, NetError>)
    requires
        slot@.session matches Some(s) ==> call_requires(query, (&s,)),
    ensures
        match slot@.session {
            Some(s) => call_ensures(query, (&s,), r),
            None => r == Ok::<IpStack, NetError>(IpStack::NoStack),
        },
{
    match slot.session() {
        Some(s) => query(s),
        None => Ok(IpStack::NoStack),
    }
}

/// The facade's registration answer: the running session's handle, or
/// `Ok(None)` when not started (the listener is then dropped unregistered).
pub fn register_reply<S, F: FnOnce(&S) -> Result<NetworkStatusListenerHandle, NetError>>(
    slot: &SessionSlot<S>,
    register: F,
) -> (r: Result<Option<NetworkStatusListenerHandle>, NetError>)
    requires
        slot@.session matches Some(s) ==> call_requires(register, (&s,)),
    ensures
        match slot@.session {
            Some(s) => match r {
                Ok(Some(h)) => call_ensures(
                    register,
                    (&s,),
                    Ok::<NetworkStatusListenerHandle, NetError>(h),
                ),
                Ok(None) => false,
                Err(e) => call_ensures(
                    register,
                    (&s,),
                    Err::<NetworkStatusListenerHandle, NetError>(e),
                ),
            },
            None => r == Ok::<Option<NetworkStatusListenerHandle>, NetError>(None),
        },
{
    match slot.session() {
        Some(s) => match register(s) {
            Ok(h) => Ok(Some(h)),
            Err(e) => Err(e),
        },
        None => Ok(None),
    }
}

/// The facade's unregistration answer: the running session's answer, or
/// `Ok(false)` when not started.
pub fn unregister_reply<S, F: FnOnce(&S) -> Result<bool, NetError>>(
    slot: &SessionSlot<S>,
    unregister: F,
) -> (r: Result<bool, NetError>)
    requires
        slot@.session matches Some(s) ==> call_requires(unregister, (&s,)),
    ensures
        match slot@.session {
            Some(s) => call_ensures(unregister, (&s,), r),
            None => r == Ok::<bool, NetError>(false),
        },
{
    match slot.session() {
        Some(s) => unregister(s),
        None => Ok(false),
    }
}

/// The facade's answer to an operation that needs a running session (clearing
/// the listeners): the session's answer, or `NotStarted` when not started.
pub fn started_only_reply<S, F: FnOnce(&S) -> Result<(), NetError>>(
    slot: &SessionSlot<S>,
    operation: F,
) -> (r: Result<(), NetError>)
    requires
        slot@.session matches Some(s) ==> call_requires(operation, (&s,)),
    ensures
        match slot@.session {
            Some(s) => call_ensures(operation, (&s,), r),
            None => r matches Err(NetError::NotStarted),
        },
{
    match slot.session() {
        Some(s) => operation(s),
        None => Err(NetError::NotStarted),
    }
}

/// The facade's network-name answer: the running session's answer, or
/// `Ok(None)` when not started.
pub fn network_name_reply<S, F: FnOnce(&S) -> Result<Option<String>, NetError>>(
    slot: &SessionSlot<S>,
    query: F,
) -> (r: Result<Option<String>, NetError>)
    requires
        slot@.session matches Some(s) ==> call_requires(query, (&s,)),
    ensures
        match slot@.session {
            Some(s) => call_ensures(query, (&s,), r),
            None => r matches Ok(None),
        },
{
    match slot.session() {
        Some(s) => query(s),
        None => Ok(None),
    }
}

} // verus!
