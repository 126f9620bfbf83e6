//! Errors reported by the interpreter lifecycle.

use vstd::prelude::*;

verus! {

/// The runtime bring-up phase in which an exceptional status was reported.
#[derive(Clone, Copy, Debug, PartialEq, Eq, Structural)]
pub enum InitPhase {
    /// Pre-initialization of the runtime.
    PreInit,
    /// First-phase (core) initialization.
    CoreInit,
    /// Second-phase (main) initialization.
    MainInit,
}

/// Errors raised while starting or using an interpreter lifecycle instance.
#[derive(Clone, Debug, PartialEq, Eq)]
pub enum NewInterpreterError {
    /// The process-wide guard could not be acquired because a prior holder
    /// panicked while holding it.  The lifecycle never starts.
    LockPoisoned,
    /// `begin` was called reentrantly while another `begin` was in flight.
    AlreadyInitializing,
    /// The runtime reported an exceptional status in the given phase.
    InitializationFailed(InitPhase),
    /// Decoding the packed resources or registering the custom loader failed.
    ResourceBootstrapFailed(String),
    /// The instance is not yet in the `Initialized` window.
    NotReady,
    /// The instance has been finalized; the runtime cannot be restarted.
    Finalized,
}

impl NewInterpreterError {
    /// Human-readable description of the error.
    pub fn message(&self) -> (r: String)
        ensures
            self is LockPoisoned ==> r@ == "unable to acquire global interpreter guard"@,
            self is AlreadyInitializing ==> r@ == "interpreter in initializing state"@,
            self == NewInterpreterError::InitializationFailed(InitPhase::PreInit) ==> r@
                == "error during runtime pre-initialization"@,
            self == NewInterpreterError::InitializationFailed(InitPhase::CoreInit) ==> r@
                == "error initializing runtime core"@,
            self == NewInterpreterError::InitializationFailed(InitPhase::MainInit) ==> r@
                == "error initializing runtime main"@,
            self is ResourceBootstrapFailed ==> r@
                == "error bootstrapping the resource-backed loader"@,
            self is NotReady ==> r@ == "interpreter not fully initialized"@,
            self is Finalized ==> r@ == "interpreter is finalized"@,
    {
        let m: &str = match self {
            NewInterpreterError::LockPoisoned => "unable to acquire global interpreter guard",
            NewInterpreterError::AlreadyInitializing => "interpreter in initializing state",
            NewInterpreterError::InitializationFailed(InitPhase::PreInit) => {
                "error during runtime pre-initialization"
            },
            NewInterpreterError::InitializationFailed(InitPhase::CoreInit) => {
                "error initializing runtime core"
            },
            NewInterpreterError::InitializationFailed(InitPhase::MainInit) => {
                "error initializing runtime main"
            },
            NewInterpreterError::ResourceBootstrapFailed(_) => {
                "error bootstrapping the resource-backed loader"
            },
            NewInterpreterError::NotReady => "interpreter not fully initialized",
            NewInterpreterError::Finalized => "interpreter is finalized",
        };
        proof {
            reveal_strlit("unable to acquire global interpreter guard");
            reveal_strlit("interpreter in initializing state");
            reveal_strlit("error during runtime pre-initialization");
            reveal_strlit("error initializing runtime core");
            reveal_strlit("error initializing runtime main");
            reveal_strlit("error bootstrapping the resource-backed loader");
            reveal_strlit("interpreter not fully initialized");
            reveal_strlit("interpreter is finalized");
        }
        m.to_owned()
    }
}

} // verus!
