use vstd::prelude::*;
use std::sync::PoisonError;
use vibe_ready::VibeEngineError;

verus! {

/// A lock-poisoning error of the standard library, carried through opaquely.
#[verifier::external_type_specification]
#[verifier::external_body]
#[verifier::reject_recursive_types(T)]
pub struct ExPoisonError<T>(PoisonError<T>);

/// An error reported by the runtime engine, carried through opaquely.
#[verifier::external_type_specification]
#[verifier::external_body]
pub struct ExVibeEngineError(VibeEngineError);

/// Error type exposed by this crate.
///
/// Engine errors are converted into this type so that runtime details do not
/// leak to callers.
#[derive(Debug, Clone)]
pub enum NetError {
    /// The monitor has not been started yet (call `start` first).
    NotStarted,
    /// Failed to create the underlying runtime engine.
    EngineCreate(String),
    /// The runtime reported an execution error.
    Runtime(String),
    /// An internal lock is poisoned (a thread panicked while holding it, so the
    /// state may be inconsistent). Shutting down and starting again rebuilds a
    /// clean instance.
    Lock,
}

impl NetError {
    /// The human-readable description of the error.
    pub open spec fn spec_message(&self) -> Seq<char> {
        match self {
            NetError::NotStarted => "network monitor is not started"@,
            NetError::EngineCreate(msg) => "create runtime engine failed: "@ + msg@,
            NetError::Runtime(msg) => "runtime error: "@ + msg@,
            NetError::Lock => "internal state lock is poisoned; call shutdown and restart to recover"@,
        }
    }

    /// Returns the human-readable description of the error.
    pub fn message(&self) -> (text: String)
        ensures
            text@ == self.spec_message(),
    {
        match self {
            NetError::NotStarted => String::from_str("network monitor is not started"),
            NetError::EngineCreate(msg) => String::from_str("create runtime engine failed: ").concat(
                msg.as_str(),
            ),
            NetError::Runtime(msg) => String::from_str("runtime error: ").concat(msg.as_str()),
            NetError::Lock => String::from_str(
                "internal state lock is poisoned; call shutdown and restart to recover",
            ),
        }
    }

    /// Every lock-poisoning failure becomes [`NetError::Lock`].
    pub fn from_poison<T>(err: PoisonError<T>) -> (e: Self)
        ensures
            e is Lock,
    {
        NetError::Lock
    }

    /// A failure to create the runtime engine becomes
    /// [`NetError::EngineCreate`], carrying the engine error's display text.
    pub fn from_engine_create_error(err: VibeEngineError) -> (e: Self)
        ensures
            e matches NetError::EngineCreate(text)
                && vstd::string::to_string_from_display_ensures::<VibeEngineError>(&err, text),
    {
        NetError::EngineCreate(err.to_string())
    }
}

impl From<VibeEngineError> for NetError {
    /// An engine error reported while running becomes [`NetError::Runtime`],
    /// carrying the engine error's display text.
    fn from(err: VibeEngineError) -> (e: Self)
        ensures
            e matches NetError::Runtime(text)
                && vstd::string::to_string_from_display_ensures::<VibeEngineError>(&err, text),
    {
        NetError::Runtime(err.to_string())
    }
}

/// The conversion's text is the engine error's display text, which is not a
/// spec function of the error; its result is described by `from`'s own
/// `ensures` instead of a `from_spec` equation.
impl vstd::std_specs::convert::FromSpecImpl<VibeEngineError> for NetError {
    open spec fn obeys_from_spec() -> bool {
        false
    }

    open spec fn from_spec(v: VibeEngineError) -> NetError {
        NetError::Runtime(
            choose|text: String|
                #[trigger] vstd::string::to_string_from_display_ensures::<VibeEngineError>(
                    &v,
                    text,
                ),
        )
    }
}

} // verus!
