use vstd::prelude::*;
use std::collections::HashMap;

use crate::ip_stack::IpStack;
use crate::net::{NetworkStatusListenerHandle, SessionScope};
use crate::network_status::NetworkStatus;

verus! {

broadcast use vstd::std_specs::hash::group_hash_axioms;

/// Number of distinct `u64` values.
pub open spec fn id_space() -> int {
    0x1_0000_0000_0000_0000
}

/// The identifier reached from `start` after `k` wrapping increments (for `0 <= k <= id_space()`).
pub open spec fn id_after(start: u64, k: int) -> int {
    if start + k < id_space() {
        start + k
    } else {
        start + k - id_space()
    }
}

/// `id` is the first identifier after `start`, in wrapping order, that is neither zero nor in `taken`.
pub open spec fn is_next_free_id(start: u64, taken: Set<u64>, id: u64) -> bool {
    exists|k: int|
        1 <= k <= id_space() && id == id_after(start, k) && id != 0 && !taken.contains(id) && (
        forall|j: int|
            1 <= j < k ==> #[trigger] id_after(start, j) == 0 || taken.contains(
                id_after(start, j) as u64,
            ))
}

/// `notify` holds, once each and in some order, a clone of every listener in
/// `listeners` together with its handle of session `scope`.
pub open spec fn is_dispatch_list<L: Clone>(
    notify: Seq<(NetworkStatusListenerHandle, L)>,
    listeners: Map<u64, L>,
    scope: SessionScope,
) -> bool {
    &&& notify.len() == listeners.dom().len()
    &&& forall|i: int| 0 <= i < notify.len() ==> (#[trigger] notify[i]).0.spec_scope() == scope
    &&& forall|i: int|
        0 <= i < notify.len() ==> listeners.contains_key(#[trigger] notify[i].0@) && cloned(
            listeners[notify[i].0@],
            notify[i].1,
        )
    &&& forall|i: int, j: int|
        0 <= i < j < notify.len() ==> #[trigger] notify[i].0@ != #[trigger] notify[j].0@
    &&& forall|id: u64|
        #[trigger] listeners.contains_key(id) ==> exists|i: int|
            0 <= i < notify.len() && #[trigger] notify[i].0@ == id
}

/// The abstract contents of a [`MonitorState`].
pub struct MonitorStateView<L, M> {
    /// The session whose handles this state issues and accepts.
    pub scope: SessionScope,
    /// The last recorded reachability.
    pub reachability: NetworkStatus,
    /// The last recorded IP-stack capability.
    pub ip_stack: IpStack,
    /// The registered listeners, by handle identifier.
    pub listeners: Map<u64, L>,
    /// The identifier most recently handed out (zero before the first).
    pub next_listener_id: u64,
    /// The running monitor task, if any.
    pub monitor: Option<M>,
}

/// Mutable state of one started session: the observed network status, the
/// registered listeners and the running monitor task (if any).
pub struct MonitorState<L, M> {
    scope: SessionScope,
    reachability: NetworkStatus,
    ip_stack: IpStack,
    listeners: HashMap<u64, L>,
    next_listener_id: u64,
    monitor: Option<M>,
}

impl<L, M> View for MonitorState<L, M> {
    type V = MonitorStateView<L, M>;

    closed spec fn view(&self) -> MonitorStateView<L, M> {
        MonitorStateView {
            scope: self.scope,
            reachability: self.reachability,
            ip_stack: self.ip_stack,
            listeners: self.listeners@,
            next_listener_id: self.next_listener_id,
            monitor: self.monitor,
        }
    }
}

impl<L, M> MonitorState<L, M> {
    /// Fresh state of session `scope`: nothing observed, no listeners, no monitor.
    pub fn new(scope: SessionScope) -> (s: Self)
        ensures
            s@.scope == scope,
            s@.listeners.dom().finite(),
            s@.reachability == NetworkStatus::Unavailable,
            s@.ip_stack == IpStack::NoStack,
            s@.listeners == Map::<u64, L>::empty(),
            s@.next_listener_id == 0,
            s@.monitor is None,
    {
        MonitorState {
            scope,
            reachability: NetworkStatus::Unavailable,
            ip_stack: IpStack::NoStack,
            listeners: HashMap::new(),
            next_listener_id: 0,
            monitor: None,
        }
    }

    /// The listener table is finite (it is held in a hash map).
    pub proof fn lemma_listeners_finite(&self)
        ensures
            self@.listeners.dom().finite(),
    {
    }

    /// The recorded reachability.
    pub fn reachability(&self) -> (r: NetworkStatus)
        ensures
            r == self@.reachability,
    {
        self.reachability
    }

    /// The recorded IP-stack capability.
    pub fn ip_stack(&self) -> (r: IpStack)
        ensures
            r == self@.ip_stack,
    {
        self.ip_stack
    }

    /// The number of registered listeners.
    pub fn listener_count(&self) -> (n: usize)
        ensures
            n == self@.listeners.len(),
    {
        self.listeners.len()
    }

    /// Whether a listener is registered under `handle` (a handle of another
    /// session never is).
    pub fn is_registered(&self, handle: NetworkStatusListenerHandle) -> (b: bool)
        ensures
            b == (handle.spec_scope() == self@.scope && self@.listeners.contains_key(handle@)),
    {
        if handle.scope() != self.scope {
            return false;
        }
        let id = handle.raw();
        self.listeners.contains_key(&id)
    }

    /// The session whose handles this state issues and accepts.
    pub fn scope(&self) -> (s: SessionScope)
        ensures
            s == self@.scope,
    {
        self.scope
    }

    /// The running monitor, if any.
    pub fn monitor(&self) -> (m: Option<&M>)
        ensures
            m == match self@.monitor {
                Some(x) => Some(&x),
                None => None::<&M>,
            },
    {
        self.monitor.as_ref()
    }

    /// Advances the identifier counter to the next identifier that is
    /// non-zero and not held by a registered listener, and returns it.
    pub fn next_listener_handle(&mut self) -> (h: NetworkStatusListenerHandle)
        requires
            old(self)@.listeners.len() < u64::MAX,
        ensures
            is_next_free_id(old(self)@.next_listener_id, old(self)@.listeners.dom(), h@),
            h.spec_scope() == old(self)@.scope,
            final(self)@.next_listener_id == h@,
            final(self)@.scope == old(self)@.scope,
            final(self)@.listeners.dom().finite(),
            final(self)@.listeners == old(self)@.listeners,
            final(self)@.reachability == old(self)@.reachability,
            final(self)@.ip_stack == old(self)@.ip_stack,
            final(self)@.monitor == old(self)@.monitor,
    {
        let ghost start = self.next_listener_id;
        let ghost taken = self.listeners@.dom();
        let ghost mut steps: int = 0;
        let ghost mut visited: Set<u64> = Set::empty();
        let mut id: u64 = self.next_listener_id;
        loop
            invariant
                taken == self.listeners@.dom(),
                taken.finite(),
                taken.len() < u64::MAX,
                start == old(self)@.next_listener_id,
                0 <= steps < id_space(),
                id as int == id_after(start, steps),
                visited.finite(),
                visited.subset_of(taken),
                forall|x: u64| #[trigger]
                    visited.contains(x) ==> exists|k: int|
                        1 <= k <= steps && x as int == #[trigger] id_after(start, k),
                visited.len() + (if start + steps >= id_space() { 1int } else { 0int }) == steps,
                forall|j: int|
                    1 <= j <= steps ==> #[trigger] id_after(start, j) == 0 || taken.contains(
                        id_after(start, j) as u64,
                    ),
                self.listeners == old(self).listeners,
                self.reachability == old(self).reachability,
                self.ip_stack == old(self).ip_stack,
                self.monitor == old(self).monitor,
                self.next_listener_id == old(self).next_listener_id,
                self.scope == old(self).scope,
            decreases id_space() - steps,
        {
            id = id.wrapping_add(1);
            proof {
                steps = steps + 1;
            }
            if id == 0 {
                proof {
                    assert(start + steps == id_space());
                    vstd::set_lib::lemma_len_subset(visited, taken);
                }
                continue;
            }
            if !self.listeners.contains_key(&id) {
                self.next_listener_id = id;
                proof {
                    assert(1 <= steps <= id_space() && id == id_after(start, steps));
                }
                return NetworkStatusListenerHandle::from_raw(self.scope, id);
            }
            proof {
                assert(!visited.contains(id)) by {
                    if visited.contains(id) {
                        let k = choose|k: int| 1 <= k <= steps - 1 && id as int == id_after(start, k);
                        assert(false);
                    }
                }
                let old_visited = visited;
                visited = visited.insert(id);
                assert forall|x: u64| #[trigger] visited.contains(x) implies exists|k: int|
                    1 <= k <= steps && x as int == #[trigger] id_after(start, k) by {
                    if x != id {
                        assert(old_visited.contains(x));
                    } else {
                        assert(id as int == id_after(start, steps));
                    }
                }
                vstd::set_lib::lemma_len_subset(visited, taken);
            }
        }
    }

    /// Registers `listener` under a freshly allocated handle.
    pub fn register(&mut self, listener: L) -> (h: NetworkStatusListenerHandle)
        requires
            old(self)@.listeners.len() < u64::MAX,
        ensures
            is_next_free_id(old(self)@.next_listener_id, old(self)@.listeners.dom(), h@),
            h.spec_scope() == old(self)@.scope,
            final(self)@.scope == old(self)@.scope,
            final(self)@.listeners.dom().finite(),
            final(self)@.listeners == old(self)@.listeners.insert(h@, listener),
            final(self)@.listeners.len() == old(self)@.listeners.len() + 1,
            final(self)@.next_listener_id == h@,
            final(self)@.reachability == old(self)@.reachability,
            final(self)@.ip_stack == old(self)@.ip_stack,
            final(self)@.monitor == old(self)@.monitor,
    {
        let h = self.next_listener_handle();
        self.listeners.insert(h.raw(), listener);
        h
    }

    /// Removes the listener registered under `handle`; reports whether one
    /// was registered. A handle issued by another session (of this or of
    /// another instance) removes nothing and is answered `false`.
    pub fn unregister(&mut self, handle: NetworkStatusListenerHandle) -> (removed: bool)
        ensures
            removed == (handle.spec_scope() == old(self)@.scope && old(self)@.listeners.contains_key(
                handle@,
            )),
            handle.spec_scope() == old(self)@.scope ==> final(self)@.listeners == old(
                self,
            )@.listeners.remove(handle@),
            handle.spec_scope() != old(self)@.scope ==> final(self)@.listeners == old(
                self,
            )@.listeners,
            final(self)@.listeners.len() == old(self)@.listeners.len() - (if removed {
                1int
            } else {
                0int
            }),
            final(self)@.next_listener_id == old(self)@.next_listener_id,
            final(self)@.scope == old(self)@.scope,
            final(self)@.listeners.dom().finite(),
            final(self)@.reachability == old(self)@.reachability,
            final(self)@.ip_stack == old(self)@.ip_stack,
            final(self)@.monitor == old(self)@.monitor,
    {
        if handle.scope() != self.scope {
            return false;
        }
        let id = handle.raw();
        self.listeners.remove(&id).is_some()
    }

    /// Removes every registered listener.
    pub fn clear_all_listener(&mut self)
        ensures
            final(self)@.listeners == Map::<u64, L>::empty(),
            final(self)@.next_listener_id == old(self)@.next_listener_id,
            final(self)@.scope == old(self)@.scope,
            final(self)@.listeners.dom().finite(),
            final(self)@.reachability == old(self)@.reachability,
            final(self)@.ip_stack == old(self)@.ip_stack,
            final(self)@.monitor == old(self)@.monitor,
    {
        self.listeners.clear();
    }

    /// A clone of every registered listener, each with its handle.
    fn dispatch_list(&self) -> (notify: Vec<(NetworkStatusListenerHandle, L)>)
        where L: Clone
        ensures
            is_dispatch_list(notify@, self@.listeners, self@.scope),
    {
        let mut notify: Vec<(NetworkStatusListenerHandle, L)> = Vec::new();
        let ghost keys = vstd::std_specs::iter::IteratorSpec::remaining(&vstd::std_specs::hash::spec_keys_iter(&self.listeners));
        for k in it: self.listeners.keys()
            invariant
                it.seq() == keys,
                keys == vstd::std_specs::iter::IteratorSpec::remaining(&vstd::std_specs::hash::spec_keys_iter(&self.listeners)),
                notify@.len() == it.index(),
                forall|i: int| 0 <= i < notify@.len() ==> (#[trigger] notify@[i]).0.spec_scope() == self@.scope,
                forall|i: int|
                    0 <= i < notify@.len() ==> #[trigger] notify@[i].0@ == *it.seq()[i],
                forall|i: int|
                    0 <= i < notify@.len() ==> self@.listeners.contains_key(
                        #[trigger] notify@[i].0@,
                    ) && cloned(self@.listeners[notify@[i].0@], notify@[i].1),
        {
            let l = self.listeners.get(k).unwrap();
            notify.push((NetworkStatusListenerHandle::from_raw(self.scope, *k), l.clone()));
        }
        proof {
            assert forall|id: u64| #[trigger] self@.listeners.contains_key(id) implies exists|i: int|
                0 <= i < notify@.len() && #[trigger] notify@[i].0@ == id by {
                assert(keys.unref().to_set().contains(id));
                let i = choose|i: int| 0 <= i < keys.len() && #[trigger] keys.unref()[i] == id;
                assert(notify@[i].0@ == id);
            }
        }
        notify
    }

    /// Records a newly observed reachability. When it differs from the
    /// recorded one, the listeners to notify are returned (a clone of each
    /// registered listener, with its handle); otherwise `None` is returned.
    pub fn update_reachability(&mut self, reachability: NetworkStatus) -> (notify: Option<
        Vec<(NetworkStatusListenerHandle, L)>,
    >)
        where L: Clone
        ensures
            old(self)@.reachability == reachability ==> notify is None,
            old(self)@.reachability != reachability ==> (notify matches Some(list)
                && is_dispatch_list(list@, old(self)@.listeners, old(self)@.scope)),
            final(self)@.reachability == reachability,
            final(self)@.ip_stack == old(self)@.ip_stack,
            final(self)@.listeners == old(self)@.listeners,
            final(self)@.next_listener_id == old(self)@.next_listener_id,
            final(self)@.scope == old(self)@.scope,
            final(self)@.listeners.dom().finite(),
            final(self)@.monitor == old(self)@.monitor,
    {
        if self.reachability == reachability {
            return None;
        }
        self.reachability = reachability;
        Some(self.dispatch_list())
    }

    /// Records a newly observed network state: the IP stack is always
    /// refreshed; the reachability is handled as by
    /// [`MonitorState::update_reachability`].
    pub fn update_state(&mut self, reachability: NetworkStatus, ip_stack: IpStack) -> (notify:
        Option<Vec<(NetworkStatusListenerHandle, L)>>)
        where L: Clone
        ensures
            old(self)@.reachability == reachability ==> notify is None,
            old(self)@.reachability != reachability ==> (notify matches Some(list)
                && is_dispatch_list(list@, old(self)@.listeners, old(self)@.scope)),
            final(self)@.reachability == reachability,
            final(self)@.ip_stack == ip_stack,
            final(self)@.listeners == old(self)@.listeners,
            final(self)@.next_listener_id == old(self)@.next_listener_id,
            final(self)@.scope == old(self)@.scope,
            final(self)@.listeners.dom().finite(),
            final(self)@.monitor == old(self)@.monitor,
    {
        self.ip_stack = ip_stack;
        self.update_reachability(reachability)
    }

    /// Forgets the observed network state, silently (no listener is notified).
    pub fn reset_observations(&mut self)
        ensures
            final(self)@.reachability == NetworkStatus::Unavailable,
            final(self)@.ip_stack == IpStack::NoStack,
            final(self)@.listeners == old(self)@.listeners,
            final(self)@.next_listener_id == old(self)@.next_listener_id,
            final(self)@.scope == old(self)@.scope,
            final(self)@.listeners.dom().finite(),
            final(self)@.monitor == old(self)@.monitor,
    {
        self.reachability = NetworkStatus::Unavailable;
        self.ip_stack = IpStack::NoStack;
    }

    /// Starts the monitor if none is running, by calling `spawn` exactly in
    /// that case, and returns the running monitor.
    pub fn begin<F: FnOnce() -> M>(&mut self, spawn: F) -> (m: &M)
        requires
            old(self)@.monitor is None ==> call_requires(spawn, ()),
        ensures
            old(self)@.monitor is Some ==> final(self)@ == old(self)@,
            old(self)@.monitor is None ==> call_ensures(spawn, (), *m),
            old(self)@.monitor matches Some(x) ==> *m == x,
            final(self)@.monitor == Some(*m),
            final(self)@.reachability == old(self)@.reachability,
            final(self)@.ip_stack == old(self)@.ip_stack,
            final(self)@.listeners == old(self)@.listeners,
            final(self)@.next_listener_id == old(self)@.next_listener_id,
            final(self)@.scope == old(self)@.scope,
            final(self)@.listeners.dom().finite(),
    {
        if self.monitor.is_none() {
            self.monitor = Some(spawn());
        }
        self.monitor.as_ref().unwrap()
    }

    /// Detaches the running monitor (if any), leaving none.
    pub fn take_monitor(&mut self) -> (m: Option<M>)
        ensures
            m == old(self)@.monitor,
            final(self)@.monitor is None,
            final(self)@.reachability == old(self)@.reachability,
            final(self)@.ip_stack == old(self)@.ip_stack,
            final(self)@.listeners == old(self)@.listeners,
            final(self)@.next_listener_id == old(self)@.next_listener_id,
            final(self)@.scope == old(self)@.scope,
            final(self)@.listeners.dom().finite(),
    {
        self.monitor.take()
    }
}

/// A freshly allocated handle is never zero and never collides with a
/// listener that is still registered.
pub proof fn lemma_fresh_handle_is_unused(start: u64, taken: Set<u64>, id: u64, live: u64)
    requires
        is_next_free_id(start, taken, id),
        taken.contains(live),
    ensures
        id != 0,
        id != live,
{
}

/// Unregistering the handle that `register` just returned succeeds and
/// restores the previous listener table; unregistering it again fails.
pub proof fn lemma_register_then_unregister<L>(
    start: u64,
    listeners: Map<u64, L>,
    id: u64,
    listener: L,
)
    requires
        is_next_free_id(start, listeners.dom(), id),
    ensures
        listeners.insert(id, listener).contains_key(id),
        listeners.insert(id, listener).remove(id) == listeners,
        !listeners.insert(id, listener).remove(id).contains_key(id),
{
    assert(listeners.insert(id, listener).remove(id) =~= listeners);
}

/// Two registrations in a row receive different handles, neither of them zero.
pub proof fn lemma_consecutive_registrations_differ<L>(
    start: u64,
    listeners: Map<u64, L>,
    first: u64,
    listener: L,
    second: u64,
)
    requires
        is_next_free_id(start, listeners.dom(), first),
        is_next_free_id(first, listeners.insert(first, listener).dom(), second),
    ensures
        first != second,
        second != 0,
{
    assert(listeners.insert(first, listener).dom().contains(first));
}

/// After the table is cleared (or in a fresh session) no handle resolves.
pub proof fn lemma_cleared_table_resolves_nothing<L>(h: NetworkStatusListenerHandle)
    ensures
        !Map::<u64, L>::empty().contains_key(h@),
{
}

/// Recording the same reachability twice notifies nobody the second time;
/// a change notifies every registered listener exactly once.
pub proof fn lemma_notifications_follow_changes<L: Clone>(
    recorded: NetworkStatus,
    observed: NetworkStatus,
    listeners: Map<u64, L>,
    notify: Option<Seq<(NetworkStatusListenerHandle, L)>>,
    scope: SessionScope,
    id: u64,
)
    requires
        recorded == observed ==> notify is None,
        recorded != observed ==> (notify matches Some(list) && is_dispatch_list(
            list,
            listeners,
            scope,
        )),
    ensures
        notify is None <==> recorded == observed,
        match notify {
            Some(list) => listeners.contains_key(id) ==> exists|i: int|
                0 <= i < list.len() && #[trigger] list[i].0@ == id && forall|j: int|
                    0 <= j < list.len() && j != i ==> list[j].0@ != id,
            None => true,
        },
{
    if let Some(list) = notify {
        if listeners.contains_key(id) {
            let i = choose|i: int| 0 <= i < list.len() && #[trigger] list[i].0@ == id;
            assert forall|j: int| 0 <= j < list.len() && j != i implies list[j].0@ != id by {
                if j < i {
                    assert(list[j].0@ != list[i].0@);
                } else {
                    assert(list[i].0@ != list[j].0@);
                }
            }
        }
    }
}

/// A handle issued by another monitor instance, or by an earlier session of
/// the same instance, never resolves in a session's state: `unregister` and
/// `is_registered` answer `false` for it whatever the table holds.
pub proof fn lemma_foreign_or_stale_handle_rejected<L, M>(
    h: NetworkStatusListenerHandle,
    state: MonitorStateView<L, M>,
)
    requires
        h.spec_scope().instance != state.scope.instance || h.spec_scope().session
            < state.scope.session,
    ensures
        h.spec_scope() != state.scope,
{
}

/// `ids` are the identifiers handed out by consecutive registrations, with
/// no unregistration in between, starting from counter `start` and table
/// domain `taken`.
pub open spec fn is_registration_run(start: u64, taken: Set<u64>, ids: Seq<u64>) -> bool {
    forall|i: int|
        0 <= i < ids.len() ==> is_next_free_id(
            if i == 0 {
                start
            } else {
                ids[i - 1]
            },
            taken + ids.subrange(0, i).to_set(),
            #[trigger] ids[i],
        )
}

/// Any number of registrations in a row receive pairwise distinct, non-zero
/// handles, none of which was already registered.
pub proof fn lemma_registration_run_distinct(start: u64, taken: Set<u64>, ids: Seq<u64>)
    requires
        is_registration_run(start, taken, ids),
    ensures
        forall|i: int| 0 <= i < ids.len() ==> #[trigger] ids[i] != 0 && !taken.contains(ids[i]),
        forall|i: int, j: int| 0 <= i < j < ids.len() ==> #[trigger] ids[i] != #[trigger] ids[j],
{
    assert forall|i: int| 0 <= i < ids.len() implies #[trigger] ids[i] != 0 && !taken.contains(
        ids[i],
    ) by {
        assert(is_next_free_id(
            if i == 0 {
                start
            } else {
                ids[i - 1]
            },
            taken + ids.subrange(0, i).to_set(),
            ids[i],
        ));
    }
    assert forall|i: int, j: int| 0 <= i < j < ids.len() implies #[trigger] ids[i] != #[trigger] ids[j] by {
        assert(is_next_free_id(
            if j == 0 {
                start
            } else {
                ids[j - 1]
            },
            taken + ids.subrange(0, j).to_set(),
            ids[j],
        ));
        assert(ids.subrange(0, j)[i] == ids[i]);
        assert(ids.subrange(0, j).to_set().contains(ids[i]));
    }
}

} // verus!
