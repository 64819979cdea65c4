use vstd::prelude::*;

use crate::interface_state::{
    current_reachability, ip_stack_from_state, spec_reachability_from_state, InterfaceSnapshot,
};
use crate::ip_stack::IpStack;
use crate::monitor_state::MonitorStateView;
use crate::network_status::NetworkStatus;

verus! {

/// Where the monitor task is in its life.
#[derive(Clone, Copy, Debug, PartialEq, Eq, Structural)]
pub enum MonitorPhase {
    /// Waiting for the interface monitor to be created.
    Starting,
    /// The interface monitor could not be created; recording `Unavailable`.
    RecordingFallback,
    /// Recording the first observed interface state.
    RecordingInitial,
    /// Signalling that the initial state is ready, then watching for changes.
    SignalingThenWatch,
    /// Signalling that the initial state is ready, then stopping.
    SignalingThenStop,
    /// Waiting for a stop request, an interface change or a refresh tick.
    Watching,
    /// Recording an observed interface state while watching.
    Recording,
    /// The task has ended.
    Finished,
}

/// What the task driver observed.
#[derive(Clone, Copy, Debug, PartialEq, Eq, Structural)]
pub enum MonitorEvent {
    /// The interface monitor could not be created.
    MonitorUnavailable,
    /// The interface monitor was created; this is its first state, with the
    /// platform's own reachability verdict when it has one.
    InitialState(InterfaceSnapshot, Option<NetworkStatus>),
    /// An interface state was observed (a change notification or a periodic
    /// refresh), with the platform's own reachability verdict when it has one.
    Observed(InterfaceSnapshot, Option<NetworkStatus>),
    /// The interface watcher closed.
    WatchClosed,
    /// A stop was requested.
    StopRequested,
    /// A requested recording finished: `true` when the shared state was
    /// updated, `false` when its lock was poisoned.
    Recorded(bool),
    /// The ready signal was sent.
    Signaled,
}

/// What the task driver must do next.
#[derive(Clone, Copy, Debug, PartialEq, Eq, Structural)]
pub enum MonitorAction {
    /// Record the reachability (and the IP stack, when given) in the shared
    /// state, notifying listeners on a change; then report `Recorded`.
    Record(NetworkStatus, Option<IpStack>),
    /// Signal that the initial state is ready; then report `Signaled`.
    SignalReady,
    /// Wait for the next stop request, interface change or refresh tick.
    Watch,
    /// Silently reset the shared state and end the task.
    ResetAndStop,
    /// End the task.
    Stop,
}

impl MonitorPhase {
    /// Whether `event` is one the task can observe in this phase.
    pub open spec fn spec_accepts(self, event: MonitorEvent) -> bool {
        match self {
            MonitorPhase::Starting => event is MonitorUnavailable || event is InitialState,
            MonitorPhase::RecordingFallback => event is Recorded,
            MonitorPhase::RecordingInitial => event is Recorded,
            MonitorPhase::SignalingThenWatch => event is Signaled,
            MonitorPhase::SignalingThenStop => event is Signaled,
            MonitorPhase::Watching => event is Observed || event is WatchClosed
                || event is StopRequested,
            MonitorPhase::Recording => event is Recorded,
            MonitorPhase::Finished => false,
        }
    }

    /// The transition taken on `event`: the next phase and the action to perform.
    pub open spec fn spec_step(self, event: MonitorEvent) -> (MonitorPhase, MonitorAction) {
        match (self, event) {
            (MonitorPhase::Starting, MonitorEvent::MonitorUnavailable) => (
                MonitorPhase::RecordingFallback,
                MonitorAction::Record(NetworkStatus::Unavailable, None),
            ),
            (MonitorPhase::Starting, MonitorEvent::InitialState(s, p)) => (
                MonitorPhase::RecordingInitial,
                MonitorAction::Record(
                    spec_current_reachability(s, p),
                    Some(IpStack::spec_from_flags(s.have_v4, s.have_v6)),
                ),
            ),
            (MonitorPhase::RecordingFallback, _) => (
                MonitorPhase::SignalingThenStop,
                MonitorAction::SignalReady,
            ),
            (MonitorPhase::RecordingInitial, MonitorEvent::Recorded(ok)) => (
                if ok {
                    MonitorPhase::SignalingThenWatch
                } else {
                    MonitorPhase::SignalingThenStop
                },
                MonitorAction::SignalReady,
            ),
            (MonitorPhase::SignalingThenWatch, _) => (MonitorPhase::Watching, MonitorAction::Watch),
            (MonitorPhase::SignalingThenStop, _) => (MonitorPhase::Finished, MonitorAction::Stop),
            (MonitorPhase::Watching, MonitorEvent::Observed(s, p)) => (
                MonitorPhase::Recording,
                MonitorAction::Record(
                    spec_current_reachability(s, p),
                    Some(IpStack::spec_from_flags(s.have_v4, s.have_v6)),
                ),
            ),
            (MonitorPhase::Recording, MonitorEvent::Recorded(ok)) => {
                if ok {
                    (MonitorPhase::Watching, MonitorAction::Watch)
                } else {
                    (MonitorPhase::Finished, MonitorAction::ResetAndStop)
                }
            },
            // A stop request or a closed watcher ends the watch loop.
            _ => (MonitorPhase::Finished, MonitorAction::ResetAndStop),
        }
    }
}

/// The reachability recorded for an observed state: the platform's verdict
/// when it gave one, else the verdict derived from the interface state.
pub open spec fn spec_current_reachability(
    s: InterfaceSnapshot,
    platform: Option<NetworkStatus>,
) -> NetworkStatus {
    match platform {
        Some(p) => p,
        None => spec_reachability_from_state(s),
    }
}

/// The decisions of the long-lived monitor task. The driver performs each
/// returned action and reports what it observed as the next event.
pub struct MonitorTask {
    phase: MonitorPhase,
}

impl View for MonitorTask {
    type V = MonitorPhase;

    closed spec fn view(&self) -> MonitorPhase {
        self.phase
    }
}

impl MonitorTask {
    /// A task waiting for its interface monitor.
    pub fn new() -> (t: Self)
        ensures
            t@ == MonitorPhase::Starting,
    {
        MonitorTask { phase: MonitorPhase::Starting }
    }

    /// The current phase.
    pub fn phase(&self) -> (p: MonitorPhase)
        ensures
            p == self@,
    {
        self.phase
    }

    /// Whether `event` can be observed in the current phase.
    pub fn accepts(&self, event: &MonitorEvent) -> (b: bool)
        ensures
            b == self@.spec_accepts(*event),
    {
        match self.phase {
            MonitorPhase::Starting => match event {
                MonitorEvent::MonitorUnavailable | MonitorEvent::InitialState(..) => true,
                _ => false,
            },
            MonitorPhase::RecordingFallback | MonitorPhase::RecordingInitial
            | MonitorPhase::Recording => match event {
                MonitorEvent::Recorded(_) => true,
                _ => false,
            },
            MonitorPhase::SignalingThenWatch | MonitorPhase::SignalingThenStop => match event {
                MonitorEvent::Signaled => true,
                _ => false,
            },
            MonitorPhase::Watching => match event {
                MonitorEvent::Observed(..) | MonitorEvent::WatchClosed
                | MonitorEvent::StopRequested => true,
                _ => false,
            },
            MonitorPhase::Finished => false,
        }
    }

    /// Takes the transition for `event` and returns the action to perform.
    pub fn step(&mut self, event: MonitorEvent) -> (action: MonitorAction)
        requires
            old(self)@.spec_accepts(event),
        ensures
            (final(self)@, action) == old(self)@.spec_step(event),
    {
        let (next, action) = match (self.phase, event) {
            (MonitorPhase::Starting, MonitorEvent::MonitorUnavailable) => (
                MonitorPhase::RecordingFallback,
                MonitorAction::Record(NetworkStatus::Unavailable, None),
            ),
            (MonitorPhase::Starting, MonitorEvent::InitialState(s, p)) => (
                MonitorPhase::RecordingInitial,
                MonitorAction::Record(current_reachability(&s, p), Some(ip_stack_from_state(&s))),
            ),
            (MonitorPhase::RecordingFallback, _) => (
                MonitorPhase::SignalingThenStop,
                MonitorAction::SignalReady,
            ),
            (MonitorPhase::RecordingInitial, MonitorEvent::Recorded(ok)) => (
                if ok {
                    MonitorPhase::SignalingThenWatch
                } else {
                    MonitorPhase::SignalingThenStop
                },
                MonitorAction::SignalReady,
            ),
            (MonitorPhase::SignalingThenWatch, _) => (MonitorPhase::Watching, MonitorAction::Watch),
            (MonitorPhase::SignalingThenStop, _) => (MonitorPhase::Finished, MonitorAction::Stop),
            (MonitorPhase::Watching, MonitorEvent::Observed(s, p)) => (
                MonitorPhase::Recording,
                MonitorAction::Record(current_reachability(&s, p), Some(ip_stack_from_state(&s))),
            ),
            (MonitorPhase::Recording, MonitorEvent::Recorded(ok)) => {
                if ok {
                    (MonitorPhase::Watching, MonitorAction::Watch)
                } else {
                    (MonitorPhase::Finished, MonitorAction::ResetAndStop)
                }
            },
            _ => (MonitorPhase::Finished, MonitorAction::ResetAndStop),
        };
        self.phase = next;
        action
    }
}

/// Every event of `events` is accepted in the phase it arrives in, starting from `p`.
pub open spec fn is_accepted_run(p: MonitorPhase, events: Seq<MonitorEvent>) -> bool
    decreases events.len(),
{
    events.len() == 0 || (p.spec_accepts(events[0]) && is_accepted_run(
        p.spec_step(events[0]).0,
        events.drop_first(),
    ))
}

/// The actions produced by feeding `events` to a task in phase `p`.
pub open spec fn run_actions(p: MonitorPhase, events: Seq<MonitorEvent>) -> Seq<MonitorAction>
    decreases events.len(),
{
    if events.len() == 0 {
        Seq::empty()
    } else {
        let (q, a) = p.spec_step(events[0]);
        seq![a] + run_actions(q, events.drop_first())
    }
}

/// The phase reached by feeding `events` to a task in phase `p`.
pub open spec fn run_end(p: MonitorPhase, events: Seq<MonitorEvent>) -> MonitorPhase
    decreases events.len(),
{
    if events.len() == 0 {
        p
    } else {
        run_end(p.spec_step(events[0]).0, events.drop_first())
    }
}

/// How many times `actions` signals that the initial state is ready.
pub open spec fn ready_signals(actions: Seq<MonitorAction>) -> nat
    decreases actions.len(),
{
    if actions.len() == 0 {
        0
    } else {
        (if actions[0] is SignalReady {
            1nat
        } else {
            0nat
        }) + ready_signals(actions.drop_first())
    }
}

/// Whether the ready signal has already been requested when the task is in phase `p`.
pub open spec fn has_signalled(p: MonitorPhase) -> bool {
    !(p is Starting || p is RecordingFallback || p is RecordingInitial)
}

/// Whether phase `p` belongs to the watch loop.
pub open spec fn in_watch_loop(p: MonitorPhase) -> bool {
    p is Watching || p is Recording
}

proof fn lemma_ready_signals_count(p: MonitorPhase, events: Seq<MonitorEvent>)
    requires
        is_accepted_run(p, events),
    ensures
        ready_signals(run_actions(p, events)) + (if has_signalled(p) {
            1int
        } else {
            0int
        }) == (if has_signalled(run_end(p, events)) {
            1int
        } else {
            0int
        }),
    decreases events.len(),
{
    if events.len() > 0 {
        let (q, a) = p.spec_step(events[0]);
        lemma_ready_signals_count(q, events.drop_first());
        let acts = run_actions(p, events);
        assert(acts[0] == a);
        assert(acts.drop_first() =~= run_actions(q, events.drop_first()));
    }
}

/// The initial-state signal is sent at most once by any run of the task,
/// and exactly once by every run that ends: the caller waiting for the
/// initial state is always released.
pub proof fn lemma_ready_signalled_once(events: Seq<MonitorEvent>)
    requires
        is_accepted_run(MonitorPhase::Starting, events),
    ensures
        ready_signals(run_actions(MonitorPhase::Starting, events)) <= 1,
        run_end(MonitorPhase::Starting, events) == MonitorPhase::Finished ==> ready_signals(
            run_actions(MonitorPhase::Starting, events),
        ) == 1,
{
    lemma_ready_signals_count(MonitorPhase::Starting, events);
}

proof fn lemma_reset_iff_watched(p: MonitorPhase, events: Seq<MonitorEvent>)
    requires
        is_accepted_run(p, events),
        p != MonitorPhase::Finished,
        run_end(p, events) == MonitorPhase::Finished,
    ensures
        run_actions(p, events).len() > 0,
        (run_actions(p, events).last() == MonitorAction::ResetAndStop) <==> (in_watch_loop(p)
            || run_actions(p, events).contains(MonitorAction::Watch)),
        run_actions(p, events).last() == MonitorAction::ResetAndStop || run_actions(
            p,
            events,
        ).last() == MonitorAction::Stop,
    decreases events.len(),
{
    let (q, a) = p.spec_step(events[0]);
    let rest = events.drop_first();
    let acts = run_actions(p, events);
    assert(acts =~= seq![a] + run_actions(q, rest));
    assert(is_accepted_run(q, rest));
    if q == MonitorPhase::Finished {
        if rest.len() > 0 {
            assert(!q.spec_accepts(rest[0]));
        }
        assert(rest.len() == 0);
        assert(run_actions(q, rest) =~= Seq::<MonitorAction>::empty());
        assert(acts =~= seq![a]);
        if acts.contains(MonitorAction::Watch) {
            let i = choose|i: int| 0 <= i < acts.len() && acts[i] == MonitorAction::Watch;
            assert(i == 0);
        }
    } else {
        lemma_reset_iff_watched(q, rest);
        let tail = run_actions(q, rest);
        assert(acts.last() == tail.last());
        if tail.contains(MonitorAction::Watch) {
            let i = choose|i: int| 0 <= i < tail.len() && tail[i] == MonitorAction::Watch;
            assert(acts[i + 1] == MonitorAction::Watch);
        }
        if acts.contains(MonitorAction::Watch) && a != MonitorAction::Watch {
            let i = choose|i: int| 0 <= i < acts.len() && acts[i] == MonitorAction::Watch;
            assert(i > 0);
            assert(tail[i - 1] == MonitorAction::Watch);
        }
        if a == MonitorAction::Watch {
            assert(acts[0] == MonitorAction::Watch);
        }
    }
}

/// A run of the task that ends finishes with a silent reset of the shared
/// state exactly when it entered the watch loop; otherwise it ends without
/// touching the state again.
pub proof fn lemma_reset_exactly_after_watching(events: Seq<MonitorEvent>)
    requires
        is_accepted_run(MonitorPhase::Starting, events),
        run_end(MonitorPhase::Starting, events) == MonitorPhase::Finished,
    ensures
        run_actions(MonitorPhase::Starting, events).len() > 0,
        (run_actions(MonitorPhase::Starting, events).last() == MonitorAction::ResetAndStop)
            <==> run_actions(MonitorPhase::Starting, events).contains(MonitorAction::Watch),
        !(run_actions(MonitorPhase::Starting, events).contains(MonitorAction::Watch))
            ==> run_actions(MonitorPhase::Starting, events).last() == MonitorAction::Stop,
{
    lemma_reset_iff_watched(MonitorPhase::Starting, events);
}

/// Whether `event` carries an observed interface state without a platform
/// reachability verdict (or carries no observation at all).
pub open spec fn has_no_platform_verdict(event: MonitorEvent) -> bool {
    match event {
        MonitorEvent::InitialState(_, p) => p is None,
        MonitorEvent::Observed(_, p) => p is None,
        _ => true,
    }
}

/// Whenever the task records `Available` from an observation that carries
/// no platform verdict, the IP stack it records with it exposes at least one
/// protocol: a reachable network always comes with an IP stack.
pub proof fn lemma_available_record_has_ip_stack(p: MonitorPhase, event: MonitorEvent)
    requires
        has_no_platform_verdict(event),
        p.spec_step(event).1 matches MonitorAction::Record(r, _) && r == NetworkStatus::Available,
    ensures
        p.spec_step(event).1 matches MonitorAction::Record(_, ip) && ip matches Some(s) && s
            != IpStack::NoStack,
{
}

/// A recorded state that reports the network available also reports an IP
/// stack exposing at least one protocol.
pub open spec fn reachable_has_stack<L, M>(state: MonitorStateView<L, M>) -> bool {
    state.reachability == NetworkStatus::Available ==> state.ip_stack != IpStack::NoStack
}

/// Recording the outcome of any step taken on an observation without a
/// platform verdict keeps a reachable state paired with an IP stack. A
/// fresh state and a reset state report `Unavailable`, so a state updated
/// only from such observations never holds `Available` with `NoStack`.
pub proof fn lemma_observations_keep_reachable_stack<L, M>(
    before: MonitorStateView<L, M>,
    after: MonitorStateView<L, M>,
    phase: MonitorPhase,
    event: MonitorEvent,
)
    requires
        reachable_has_stack(before),
        has_no_platform_verdict(event),
        phase.spec_step(event).1 matches MonitorAction::Record(r, ip) && after.reachability == r
            && after.ip_stack == match ip {
            Some(s) => s,
            None => before.ip_stack,
        },
    ensures
        reachable_has_stack(after),
{
}

/// The IP stack expected for the availability flags `have_v4` / `have_v6`,
/// written out case by case.
pub open spec fn stack_for_flags(have_v4: bool, have_v6: bool) -> IpStack {
    match (have_v4, have_v6) {
        (true, true) => IpStack::DualStack,
        (true, false) => IpStack::V4Only,
        (false, true) => IpStack::V6Only,
        (false, false) => IpStack::NoStack,
    }
}

/// Every recording made from an observed interface state, in any phase and
/// whether it is the initial state or a later change or refresh:
/// - records exactly the platform's verdict when the observation carries one;
/// - otherwise records `Available` exactly when the interface state has a
///   default route and at least one usable protocol;
/// - records the IP stack the interface state's IPv4 / IPv6 flags describe.
/// The initial state is always recorded, and so is every observation made
/// while watching.
pub proof fn lemma_observations_are_recorded_faithfully(
    p: MonitorPhase,
    s: InterfaceSnapshot,
    verdict: Option<NetworkStatus>,
)
    ensures
        forall|event: MonitorEvent|
            (event == MonitorEvent::InitialState(s, verdict) || event == MonitorEvent::Observed(
                s,
                verdict,
            )) ==> match #[trigger] p.spec_step(event).1 {
                MonitorAction::Record(r, ip) => {
                    &&& (verdict matches Some(v) ==> r == v)
                    &&& (verdict is None ==> ((r == NetworkStatus::Available) <==> (
                    s.has_default_route && (s.have_v4 || s.have_v6))))
                    &&& (verdict is None ==> (r == NetworkStatus::Available
                        || r == NetworkStatus::Unavailable))
                    &&& ip == Some(stack_for_flags(s.have_v4, s.have_v6))
                    &&& ip matches Some(st) && st.spec_has_ipv4() == s.have_v4
                        && st.spec_has_ipv6() == s.have_v6
                },
                _ => true,
            },
        MonitorPhase::Starting.spec_step(MonitorEvent::InitialState(s, verdict)).1 is Record,
        MonitorPhase::Watching.spec_step(MonitorEvent::Observed(s, verdict)).1 is Record,
{
}

} // verus!
