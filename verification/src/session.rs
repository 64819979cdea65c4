use vstd::prelude::*;

use crate::net::SessionScope;
use crate::net_error::NetError;

verus! {

/// The abstract contents of a [`SessionSlot`].
pub struct SessionSlotView<S> {
    /// Identity of the monitor instance that owns the slot.
    pub instance: u64,
    /// How many sessions have been started in the slot so far.
    pub sessions: u64,
    /// The running session, if started.
    pub session: Option<S>,
}

/// The lifecycle slot of a monitor instance: empty until started, holding the
/// running session until shut down. Every session it starts gets a scope of
/// its own: the instance's identity and a session number higher than that of
/// any earlier session.
pub struct SessionSlot<S> {
    instance: u64,
    sessions: u64,
    session: Option<S>,
}

impl<S> View for SessionSlot<S> {
    type V = SessionSlotView<S>;

    closed spec fn view(&self) -> SessionSlotView<S> {
        SessionSlotView { instance: self.instance, sessions: self.sessions, session: self.session }
    }
}

impl<S> SessionSlot<S> {
    /// A slot of monitor instance `instance` that has not been started.
    pub fn new(instance: u64) -> (slot: Self)
        ensures
            slot@.instance == instance,
            slot@.sessions == 0,
            slot@.session is None,
    {
        SessionSlot { instance, sessions: 0, session: None }
    }

    /// Starts a session unless one is already running, and returns the
    /// running session. `create` is called exactly when the slot is empty,
    /// with the new session's scope; if it fails, its error is returned and
    /// the slot stays empty.
    pub fn start_with<F: FnOnce(SessionScope) -> Result<S, NetError>>(&mut self, create: F) -> (r:
        Result<&S, NetError>)
        requires
            old(self)@.session is None ==> old(self)@.sessions < u64::MAX && call_requires(
                create,
                (SessionScope { instance: old(self)@.instance, session: (old(self)@.sessions + 1) as u64 },),
            ),
        ensures
            final(self)@.instance == old(self)@.instance,
            old(self)@.session is Some ==> final(self)@ == old(self)@ && r == Ok::<&S, NetError>(
                &old(self)@.session->0,
            ),
            old(self)@.session is None ==> match r {
                Ok(s) => call_ensures(
                    create,
                    (SessionScope { instance: old(self)@.instance, session: (old(self)@.sessions + 1) as u64 },),
                    Ok::<S, NetError>(*s),
                ) && final(self)@.session == Some(*s) && final(self)@.sessions == old(self)@.sessions
                    + 1,
                Err(e) => call_ensures(
                    create,
                    (SessionScope { instance: old(self)@.instance, session: (old(self)@.sessions + 1) as u64 },),
                    Err::<S, NetError>(e),
                ) && final(self)@.session is None && final(self)@.sessions == old(self)@.sessions,
            },
    {
        if self.session.is_none() {
            let scope = SessionScope { instance: self.instance, session: self.sessions + 1 };
            match create(scope) {
                Ok(s) => {
                    self.session = Some(s);
                    self.sessions = self.sessions + 1;
                },
                Err(e) => {
                    return Err(e);
                },
            }
        }
        Ok(self.session.as_ref().unwrap())
    }

    /// Ends the running session, if any, and hands it back for teardown.
    pub fn take(&mut self) -> (s: Option<S>)
        ensures
            s == old(self)@.session,
            final(self)@.session is None,
            final(self)@.instance == old(self)@.instance,
            final(self)@.sessions == old(self)@.sessions,
    {
        self.session.take()
    }

    /// The running session, if started.
    pub fn session(&self) -> (s: Option<&S>)
        ensures
            s == match self@.session {
                Some(x) => Some(&x),
                None => None::<&S>,
            },
    {
        self.session.as_ref()
    }

    /// How many sessions have been started so far.
    pub fn sessions_started(&self) -> (n: u64)
        ensures
            n == self@.sessions,
    {
        self.sessions
    }

    /// Whether a session is running.
    pub fn is_started(&self) -> (b: bool)
        ensures
            b == (self@.session is Some),
    {
        self.session.is_some()
    }

    /// Whether no session is running (the inverse of [`SessionSlot::is_started`]).
    pub fn is_shutdown(&self) -> (b: bool)
        ensures
            b == (self@.session is None),
    {
        !self.is_started()
    }
}

} // verus!
