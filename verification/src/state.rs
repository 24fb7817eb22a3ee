use vstd::prelude::*;
use crate::cli::CliError;
use crate::memory::MemoryError;
use crate::psu::PsuError;
use crate::refrigerator::RefrigeratorError;
use crate::storage::StorageError;

verus! {

/// The single enumerated state of the whole system.
///
/// Within one boot session the state moves forward only: the orchestrator
/// takes it from `Initializing` to `Running`, and any fatal condition takes
/// it to the absorbing `Error` state. `Unknown` is a sentinel that no normal
/// transition produces.
#[derive(Debug, Clone, Copy, PartialEq, Eq, Structural)]
pub enum SystemState {
    Initializing,
    Running,
    Error,
    ShuttingDown,
    Off,
    Unknown,
}

/// The name under which a `SystemState` is reported on the console.
pub open spec fn state_name(s: SystemState) -> Seq<char> {
    match s {
        SystemState::Initializing => "Initializing"@,
        SystemState::Running => "Running"@,
        SystemState::Error => "Error"@,
        SystemState::ShuttingDown => "ShuttingDown"@,
        SystemState::Off => "Off"@,
        SystemState::Unknown => "Unknown"@,
    }
}

impl SystemState {
    /// The printable name of this state.
    pub fn name(&self) -> (r: &'static str)
        ensures
            r@ == state_name(*self),
    {
        match self {
            SystemState::Initializing => "Initializing",
            SystemState::Running => "Running",
            SystemState::Error => "Error",
            SystemState::ShuttingDown => "ShuttingDown",
            SystemState::Off => "Off",
            SystemState::Unknown => "Unknown",
        }
    }
}

/// The process-wide holder of the current `SystemState`.
///
/// All mutation is funnelled through `set_system_state`, so that the
/// orchestrator and the trap path are the only writers and a half-finished
/// update can never be observed.
pub struct SystemStateRegistry {
    state: SystemState,
}

impl SystemStateRegistry {
    pub closed spec fn current(&self) -> SystemState {
        self.state
    }

    /// A fresh registry; every boot session starts out `Initializing`.
    pub fn new() -> (r: SystemStateRegistry)
        ensures
            r.current() == SystemState::Initializing,
    {
        SystemStateRegistry { state: SystemState::Initializing }
    }
}

/// Record a new system state.
pub fn set_system_state(reg: &mut SystemStateRegistry, state: SystemState)
    ensures
        final(reg).current() == state,
{
    reg.state = state;
}

/// Read the current system state.
pub fn get_system_state(reg: &SystemStateRegistry) -> (r: SystemState)
    ensures
        r == reg.current(),
{
    reg.state
}

/// The top-level error type: every subsystem's error can be carried in it.
#[derive(Debug, Clone, Copy, PartialEq, Eq, Structural)]
pub enum Error {
    Storage(StorageError),
    Memory(MemoryError),
    Cli(CliError),
    Refrigerator(RefrigeratorError),
    Psu(PsuError),
    InitializationError,
    UnknownError,
}

} // verus!
