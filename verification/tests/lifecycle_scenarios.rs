//! The documented lifecycle scenarios, driven through the verified session
//! slot, facade replies and monitor state composed the way the network facade
//! composes them (one lock around the slot, one lock around each session's
//! state, one process-wide source of instance identities).

use std::sync::atomic::{AtomicU64, AtomicUsize, Ordering};
use std::sync::{Arc, Mutex};

use net_kit::replies;
use net_kit::{
    IpStack, MonitorState, NetError, NetworkStatus, NetworkStatusListenerHandle, SessionSlot,
};

static NEXT_INSTANCE: AtomicU64 = AtomicU64::new(1);

type Listener = Arc<dyn Fn(NetworkStatus) + Send + Sync>;
type Session = Mutex<MonitorState<Listener, ()>>;

struct Net {
    inner: Mutex<SessionSlot<Session>>,
}

impl Net {
    fn new() -> Net {
        Net {
            inner: Mutex::new(SessionSlot::new(NEXT_INSTANCE.fetch_add(1, Ordering::Relaxed))),
        }
    }

    fn start(&self) -> Result<(), NetError> {
        let mut slot = self.inner.lock().map_err(NetError::from_poison)?;
        let session = slot.start_with(|scope| Ok(Mutex::new(MonitorState::new(scope))))?;
        session.lock().map_err(NetError::from_poison)?.begin(|| ());
        Ok(())
    }

    fn shutdown(&self) -> Result<(), NetError> {
        let taken = self.inner.lock().map_err(NetError::from_poison)?.take();
        if let Some(session) = taken {
            let mut state = session.lock().map_err(NetError::from_poison)?;
            state.take_monitor();
            state.reset_observations();
        }
        Ok(())
    }

    fn local_network_reachability(&self) -> Result<NetworkStatus, NetError> {
        let slot = self.inner.lock().map_err(NetError::from_poison)?;
        replies::reachability_reply(&slot, |s| Ok(s.lock().map_err(NetError::from_poison)?.reachability()))
    }

    fn ip_stack(&self) -> Result<IpStack, NetError> {
        let slot = self.inner.lock().map_err(NetError::from_poison)?;
        replies::ip_stack_reply(&slot, |s| Ok(s.lock().map_err(NetError::from_poison)?.ip_stack()))
    }

    fn has_ipv4(&self) -> Result<bool, NetError> {
        Ok(self.ip_stack()?.has_ipv4())
    }

    fn has_ipv6(&self) -> Result<bool, NetError> {
        Ok(self.ip_stack()?.has_ipv6())
    }

    fn register(
        &self,
        listener: Box<dyn Fn(NetworkStatus) + Send + Sync>,
    ) -> Result<Option<NetworkStatusListenerHandle>, NetError> {
        let slot = self.inner.lock().map_err(NetError::from_poison)?;
        replies::register_reply(&slot, move |s| {
            Ok(s.lock().map_err(NetError::from_poison)?.register(Arc::from(listener)))
        })
    }

    fn unregister(&self, handle: NetworkStatusListenerHandle) -> Result<bool, NetError> {
        let slot = self.inner.lock().map_err(NetError::from_poison)?;
        replies::unregister_reply(&slot, |s| Ok(s.lock().map_err(NetError::from_poison)?.unregister(handle)))
    }

    fn clear_all_listener(&self) -> Result<(), NetError> {
        let slot = self.inner.lock().map_err(NetError::from_poison)?;
        replies::started_only_reply(&slot, |s| {
            s.lock().map_err(NetError::from_poison)?.clear_all_listener();
            Ok(())
        })
    }

    fn is_started(&self) -> bool {
        match self.inner.lock() {
            Ok(slot) => slot.is_started(),
            Err(_) => false,
        }
    }

    fn is_shutdown(&self) -> bool {
        !self.is_started()
    }

    /// Feeds an observed network state to the running session, returning how
    /// many listeners were notified.
    fn observe(&self, status: NetworkStatus, stack: IpStack) -> usize {
        match self.inner.lock().unwrap().session() {
            Some(s) => {
                let notify = s.lock().unwrap().update_state(status, stack).unwrap_or_default();
                for (_, l) in &notify {
                    l(status);
                }
                notify.len()
            }
            None => 0,
        }
    }
}

impl Default for Net {
    fn default() -> Self {
        Net::new()
    }
}

#[test]
fn fresh_net_is_not_started() {
    let net = Net::new();
    assert_eq!(net.local_network_reachability().unwrap(), NetworkStatus::Unavailable);
    assert!(net.register(Box::new(|_| {})).unwrap().is_none());
    assert!(net.clear_all_listener().is_err());
}

#[test]
fn default_matches_new() {
    let net = Net::default();
    assert_eq!(net.local_network_reachability().unwrap(), NetworkStatus::Unavailable);
    assert!(net.register(Box::new(|_| {})).unwrap().is_none());
}

#[test]
fn start_then_basic_operations() {
    let net = Net::new();
    net.start().expect("start should succeed");
    let handle = net
        .register(Box::new(|_status| {}))
        .unwrap()
        .expect("register after start returns a handle");
    let status = net.local_network_reachability().unwrap();
    assert!(matches!(status, NetworkStatus::Available | NetworkStatus::Unavailable));
    assert!(net.unregister(handle).unwrap(), "first unregister succeeds");
    assert!(!net.unregister(handle).unwrap(), "second unregister is a no-op");
    net.shutdown().expect("shutdown should succeed");
}

#[test]
fn register_multiple_then_clear() {
    let net = Net::new();
    net.start().unwrap();
    let h1 = net.register(Box::new(|_| {})).unwrap().unwrap();
    let h2 = net.register(Box::new(|_| {})).unwrap().unwrap();
    let h3 = net.register(Box::new(|_| {})).unwrap().unwrap();
    assert_ne!(h1, h2);
    assert_ne!(h2, h3);
    assert_ne!(h1, h3);
    net.clear_all_listener().expect("clear after start is Ok");
    assert!(!net.unregister(h1).unwrap());
    assert!(!net.unregister(h2).unwrap());
    assert!(!net.unregister(h3).unwrap());
    net.shutdown().unwrap();
}

#[test]
fn lifecycle_start_shutdown_restart() {
    let net = Net::new();
    net.start().unwrap();
    let h = net.register(Box::new(|_| {})).unwrap().unwrap();
    assert!(net.unregister(h).unwrap());
    net.shutdown().unwrap();
    assert!(net.register(Box::new(|_| {})).unwrap().is_none());
    assert!(net.clear_all_listener().is_err());
    net.start().unwrap();
    assert!(net.register(Box::new(|_| {})).unwrap().is_some());
    net.shutdown().unwrap();
}

#[test]
fn registering_does_not_immediately_invoke() {
    let net = Net::new();
    net.start().unwrap();
    let counter = Arc::new(AtomicUsize::new(0));
    let c = Arc::clone(&counter);
    let _h = net
        .register(Box::new(move |_| {
            c.fetch_add(1, Ordering::SeqCst);
        }))
        .unwrap()
        .unwrap();
    assert_eq!(counter.load(Ordering::SeqCst), 0, "listener must not fire purely on registration");
    net.shutdown().unwrap();
}

#[test]
fn listeners_fire_only_on_change() {
    let net = Net::new();
    net.start().unwrap();
    let counter = Arc::new(AtomicUsize::new(0));
    for _ in 0..3 {
        let c = Arc::clone(&counter);
        net.register(Box::new(move |_| {
            c.fetch_add(1, Ordering::SeqCst);
        }))
        .unwrap();
    }
    assert_eq!(net.observe(NetworkStatus::Unavailable, IpStack::NoStack), 0);
    assert_eq!(net.observe(NetworkStatus::Available, IpStack::V4Only), 3);
    assert_eq!(net.observe(NetworkStatus::Available, IpStack::DualStack), 0);
    assert_eq!(counter.load(Ordering::SeqCst), 3);
    assert_eq!(net.ip_stack().unwrap(), IpStack::DualStack);
    net.shutdown().unwrap();
}

#[test]
fn handles_are_unique_across_many_registrations() {
    let net = Net::new();
    net.start().unwrap();
    let mut handles = Vec::new();
    for _ in 0..1_000 {
        handles.push(net.register(Box::new(|_| {})).unwrap().unwrap());
    }
    let mut sorted = handles.clone();
    sorted.sort_by_key(|h| format!("{h:?}"));
    sorted.dedup_by_key(|h| format!("{h:?}"));
    assert_eq!(sorted.len(), handles.len(), "all registration handles must be unique");
    for h in handles {
        assert!(net.unregister(h).unwrap());
    }
    net.shutdown().unwrap();
}

#[test]
fn double_unregister_returns_false_second_time() {
    let net = Net::new();
    net.start().unwrap();
    let h = net.register(Box::new(|_| {})).unwrap().unwrap();
    assert!(net.unregister(h).unwrap());
    assert!(!net.unregister(h).unwrap());
    net.shutdown().unwrap();
}

#[test]
fn unregister_handle_from_other_instance_fails() {
    let net_a = Net::new();
    let net_b = Net::new();
    net_a.start().unwrap();
    net_b.start().unwrap();
    let h_b = net_b.register(Box::new(|_| {})).unwrap().unwrap();
    assert!(!net_a.unregister(h_b).unwrap(), "a handle from another instance must not resolve");
    assert!(net_b.unregister(h_b).unwrap());
    net_a.shutdown().unwrap();
    net_b.shutdown().unwrap();
}

#[test]
fn clear_then_register_again() {
    let net = Net::new();
    net.start().unwrap();
    let handles: Vec<_> = (0..20)
        .map(|_| net.register(Box::new(|_| {})).unwrap().unwrap())
        .collect();
    net.clear_all_listener().unwrap();
    for h in &handles {
        assert!(!net.unregister(*h).unwrap(), "cleared handles no longer resolve");
    }
    assert!(net.register(Box::new(|_| {})).unwrap().is_some());
    net.shutdown().unwrap();
}

#[test]
fn clear_when_empty_is_ok() {
    let net = Net::new();
    net.start().unwrap();
    net.clear_all_listener().expect("clear with no listeners is Ok");
    net.clear_all_listener().expect("repeated clear is Ok");
    net.shutdown().unwrap();
}

#[test]
fn handles_do_not_survive_restart() {
    let net = Net::new();
    net.start().unwrap();
    let old_handle = net.register(Box::new(|_| {})).unwrap().unwrap();
    net.shutdown().unwrap();
    net.start().unwrap();
    assert!(!net.unregister(old_handle).unwrap(), "stale handle from previous session must not resolve");
    net.shutdown().unwrap();
}

#[test]
fn operations_before_start_are_well_defined() {
    let net = Net::new();
    assert_eq!(net.local_network_reachability().unwrap(), NetworkStatus::Unavailable);
    assert!(net.register(Box::new(|_| {})).unwrap().is_none());
    assert!(net.clear_all_listener().is_err());
    assert!(net.shutdown().is_ok());
}

#[test]
fn stale_handle_after_shutdown_is_rejected() {
    let net = Net::new();
    net.start().unwrap();
    let handle = net.register(Box::new(|_| {})).unwrap().unwrap();
    net.shutdown().unwrap();
    assert!(!net.unregister(handle).unwrap());
}

#[test]
fn fresh_net_reports_none() {
    let net = Net::new();
    assert_eq!(net.ip_stack().unwrap(), IpStack::NoStack);
    assert!(!net.has_ipv4().unwrap());
    assert!(!net.has_ipv6().unwrap());
}

#[test]
fn default_reports_none() {
    let net = Net::default();
    assert_eq!(net.ip_stack().unwrap(), IpStack::NoStack);
}

#[test]
fn ip_stack_is_none_after_shutdown() {
    let net = Net::new();
    net.start().unwrap();
    net.observe(NetworkStatus::Available, IpStack::DualStack);
    net.shutdown().unwrap();
    assert_eq!(net.ip_stack().unwrap(), IpStack::NoStack);
    assert!(!net.has_ipv4().unwrap());
    assert!(!net.has_ipv6().unwrap());
}

#[test]
fn double_start_is_ignored_and_preserves_state() {
    let net = Net::new();
    net.start().expect("first start ok");
    let handle = net.register(Box::new(|_| {})).unwrap().expect("registered after first start");
    net.start().expect("second start is a no-op Ok");
    assert!(net.unregister(handle).unwrap(), "listener survives a redundant start");
    net.shutdown().unwrap();
}

#[test]
fn many_redundant_starts() {
    let net = Net::new();
    for i in 0..10 {
        net.start().unwrap_or_else(|e| panic!("start #{i} failed: {}", e.message()));
    }
    assert!(net.register(Box::new(|_| {})).unwrap().is_some());
    net.shutdown().unwrap();
}

#[test]
fn shutdown_without_start_is_ok() {
    let net = Net::new();
    net.shutdown().expect("shutdown on unstarted Net is Ok");
    assert!(net.register(Box::new(|_| {})).unwrap().is_none());
}

#[test]
fn double_shutdown_is_ignored() {
    let net = Net::new();
    net.start().unwrap();
    net.shutdown().expect("first shutdown ok");
    net.shutdown().expect("second shutdown is a no-op Ok");
    assert!(net.register(Box::new(|_| {})).unwrap().is_none());
}

#[test]
fn start_shutdown_alternation() {
    let net = Net::new();
    for _ in 0..5 {
        net.start().unwrap();
        assert!(net.register(Box::new(|_| {})).unwrap().is_some(), "registration works while started");
        net.shutdown().unwrap();
        assert!(net.register(Box::new(|_| {})).unwrap().is_none(), "registration is disabled while stopped");
    }
}

#[test]
fn fresh_net_reports_not_started() {
    let net = Net::new();
    assert!(!net.is_started(), "a new Net has not been started");
    assert!(net.is_shutdown(), "a new Net is in the shutdown state");
    assert_ne!(net.is_started(), net.is_shutdown());
}

#[test]
fn default_reports_not_started() {
    let net = Net::default();
    assert!(!net.is_started());
    assert!(net.is_shutdown());
}

#[test]
fn started_then_shutdown_toggles_state() {
    let net = Net::new();
    net.start().expect("start should succeed");
    assert!(net.is_started(), "started after start()");
    assert!(!net.is_shutdown(), "not shut down after start()");
    assert_ne!(net.is_started(), net.is_shutdown());
    net.shutdown().expect("shutdown should succeed");
    assert!(!net.is_started(), "not started after shutdown()");
    assert!(net.is_shutdown(), "shut down after shutdown()");
    assert_ne!(net.is_started(), net.is_shutdown());
}

#[test]
fn redundant_start_keeps_started() {
    let net = Net::new();
    net.start().unwrap();
    net.start().expect("second start is a no-op Ok");
    assert!(net.is_started());
    assert!(!net.is_shutdown());
    net.shutdown().unwrap();
}

#[test]
fn shutdown_without_start_stays_shutdown() {
    let net = Net::new();
    net.shutdown().expect("shutdown on unstarted Net is Ok");
    assert!(!net.is_started());
    assert!(net.is_shutdown());
}

#[test]
fn double_shutdown_stays_shutdown() {
    let net = Net::new();
    net.start().unwrap();
    net.shutdown().expect("first shutdown ok");
    net.shutdown().expect("second shutdown is a no-op Ok");
    assert!(!net.is_started());
    assert!(net.is_shutdown());
}

#[test]
fn state_queries_across_full_lifecycle() {
    let net = Net::new();
    assert!(net.is_shutdown());
    for _ in 0..5 {
        net.start().unwrap();
        assert!(net.is_started());
        assert!(!net.is_shutdown());
        net.shutdown().unwrap();
        assert!(!net.is_started());
        assert!(net.is_shutdown());
    }
}

#[test]
fn massive_registration_then_clear() {
    let net = Net::new();
    net.start().unwrap();
    const COUNT: usize = 50_000;
    let mut handles = Vec::with_capacity(COUNT);
    for _ in 0..COUNT {
        handles.push(net.register(Box::new(|_| {})).unwrap().expect("register ok"));
    }
    assert_eq!(handles.len(), COUNT);
    net.clear_all_listener().unwrap();
    for h in handles.iter().step_by(COUNT / 100) {
        assert!(!net.unregister(*h).unwrap());
    }
    net.shutdown().unwrap();
}

#[test]
fn high_churn_register_unregister() {
    let net = Net::new();
    net.start().unwrap();
    for _ in 0..100_000 {
        let h = net.register(Box::new(|_| {})).unwrap().expect("register ok");
        assert!(net.unregister(h).unwrap(), "freshly registered handle unregisters");
    }
    net.shutdown().unwrap();
}

#[test]
fn many_lifecycle_cycles() {
    let net = Net::new();
    for i in 0..25 {
        net.start()
            .unwrap_or_else(|e| panic!("start on cycle {i} failed: {}", e.message()));
        let h = net.register(Box::new(|_| {})).unwrap().unwrap();
        let _ = net.local_network_reachability();
        assert!(net.unregister(h).unwrap());
        net.shutdown().unwrap();
    }
}

#[test]
fn large_stateful_listener_set() {
    let net = Net::new();
    net.start().unwrap();
    let counter = Arc::new(AtomicUsize::new(0));
    const COUNT: usize = 10_000;
    let mut handles = Vec::with_capacity(COUNT);
    for _ in 0..COUNT {
        let c = Arc::clone(&counter);
        handles.push(
            net.register(Box::new(move |_| {
                c.fetch_add(1, Ordering::SeqCst);
            }))
            .unwrap()
            .unwrap(),
        );
    }
    for h in handles.iter().take(COUNT / 2) {
        assert!(net.unregister(*h).unwrap());
    }
    net.clear_all_listener().unwrap();
    for h in handles.iter().skip(COUNT / 2) {
        assert!(!net.unregister(*h).unwrap(), "remaining handles were cleared");
    }
    net.shutdown().unwrap();
}

#[test]
fn failed_engine_creation_leaves_net_stopped() {
    let slot_net = Mutex::new(SessionSlot::<Session>::new(0));
    let mut slot = slot_net.lock().unwrap();
    let r = slot.start_with(|_| Err(NetError::EngineCreate("no runtime".to_string())));
    assert!(matches!(r, Err(NetError::EngineCreate(_))));
    assert!(slot.is_shutdown());
    assert_eq!(slot.sessions_started(), 0);
}

#[test]
fn foreign_handle_never_removes_an_unrelated_listener() {
    let net_a = Net::new();
    let net_b = Net::new();
    net_a.start().unwrap();
    net_b.start().unwrap();
    let h_a = net_a.register(Box::new(|_| {})).unwrap().unwrap();
    let h_b = net_b.register(Box::new(|_| {})).unwrap().unwrap();
    assert_eq!(h_a.raw(), h_b.raw(), "both instances hand out the same first identifier");
    assert!(!net_a.unregister(h_b).unwrap(), "a handle from another instance must not resolve");
    assert!(net_a.unregister(h_a).unwrap(), "A's own listener is still registered");
    assert!(net_b.unregister(h_b).unwrap());
    net_a.shutdown().unwrap();
    net_b.shutdown().unwrap();
}

#[test]
fn stale_handle_never_removes_a_listener_of_a_later_session() {
    let net = Net::new();
    net.start().unwrap();
    let old_handle = net.register(Box::new(|_| {})).unwrap().unwrap();
    net.shutdown().unwrap();
    net.start().unwrap();
    let new_handle = net.register(Box::new(|_| {})).unwrap().unwrap();
    assert_eq!(old_handle.raw(), new_handle.raw());
    assert!(!net.unregister(old_handle).unwrap(), "stale handle from previous session must not resolve");
    assert!(net.unregister(new_handle).unwrap(), "the new session's listener is untouched");
    net.shutdown().unwrap();
}

#[test]
fn sessions_are_numbered_upwards() {
    let mut slot = SessionSlot::<Session>::new(9);
    let mut seen = Vec::new();
    for _ in 0..3 {
        let s = slot.start_with(|scope| Ok(Mutex::new(MonitorState::new(scope)))).unwrap();
        seen.push(s.lock().unwrap().scope());
        slot.take();
    }
    assert_eq!(seen.iter().map(|s| (s.instance, s.session)).collect::<Vec<_>>(), vec![(9, 1), (9, 2), (9, 3)]);
}

#[test]
fn not_started_replies() {
    let slot = SessionSlot::<Session>::new(0);
    assert_eq!(replies::reachability_reply(&slot, |_| panic!("not called")).unwrap(), NetworkStatus::Unavailable);
    assert_eq!(replies::ip_stack_reply(&slot, |_| panic!("not called")).unwrap(), IpStack::NoStack);
    assert_eq!(replies::register_reply(&slot, |_| panic!("not called")).unwrap(), None);
    assert!(!replies::unregister_reply(&slot, |_| panic!("not called")).unwrap());
    assert!(matches!(replies::started_only_reply(&slot, |_| panic!("not called")), Err(NetError::NotStarted)));
    assert_eq!(replies::network_name_reply(&slot, |_| panic!("not called")).unwrap(), None);
}
