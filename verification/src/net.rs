use vstd::prelude::*;

verus! {

/// Which started session of which monitor instance issued a handle: the
/// instance's identity and the session's sequence number within it.
#[derive(Debug, Clone, Copy, PartialEq, Eq, Structural, Hash)]
pub struct SessionScope {
    /// Identity of the monitor instance.
    pub instance: u64,
    /// Sequence number of the session within the instance (first session: 1).
    pub session: u64,
}

/// Identifies one registered network-status listener of one started session.
#[derive(Debug, Clone, Copy, PartialEq, Eq, Structural, Hash)]
pub struct NetworkStatusListenerHandle {
    scope: SessionScope,
    id: u64,
}

impl View for NetworkStatusListenerHandle {
    type V = u64;

    /// The raw identifier behind the handle, unique within its session.
    closed spec fn view(&self) -> u64 {
        self.id
    }
}

impl NetworkStatusListenerHandle {
    /// The session that issued the handle.
    pub closed spec fn spec_scope(self) -> SessionScope {
        self.scope
    }

    /// Builds the handle for identifier `id` of session `scope`.
    pub fn from_raw(scope: SessionScope, id: u64) -> (h: Self)
        ensures
            h@ == id,
            h.spec_scope() == scope,
    {
        NetworkStatusListenerHandle { scope, id }
    }

    /// The raw identifier behind the handle.
    pub fn raw(&self) -> (id: u64)
        ensures
            id == self@,
    {
        self.id
    }

    /// The session that issued the handle.
    pub fn scope(&self) -> (s: SessionScope)
        ensures
            s == self.spec_scope(),
    {
        self.scope
    }
}

/// Two handles are the same handle exactly when their sessions and
/// identifiers agree.
pub proof fn lemma_handle_identity(a: NetworkStatusListenerHandle, b: NetworkStatusListenerHandle)
    ensures
        (a == b) <==> (a@ == b@ && a.spec_scope() == b.spec_scope()),
{
}

} // verus!
