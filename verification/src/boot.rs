use vstd::prelude::*;
use crate::memory::MemoryError;
use crate::state::{set_system_state, SystemState, SystemStateRegistry};

verus! {

/// Errors of the fatal boot stages.
#[derive(Debug, Clone, Copy, PartialEq, Eq, Structural)]
pub enum BootError {
    EarlyHardwareInitError,
    MemoryInitError(MemoryError),
    PeripheralInitError,
}

impl From<MemoryError> for BootError {
    fn from(err: MemoryError) -> (r: BootError) {
        BootError::MemoryInitError(err)
    }
}

impl vstd::std_specs::convert::FromSpecImpl<MemoryError> for BootError {
    open spec fn obeys_from_spec() -> bool {
        true
    }

    open spec fn from_spec(err: MemoryError) -> Self {
        BootError::MemoryInitError(err)
    }
}

/// The ordered boot stages, first to last.
#[derive(Debug, Clone, Copy, PartialEq, Eq, Structural)]
pub enum BootStage {
    EarlyHardware,
    CorePeripherals,
    MemorySubsystem,
    Allocator,
    StorageProbe,
    PowerMonitor,
    RefrigeratorInterface,
    Shell,
}

/// How many stages a boot session runs.
pub const STAGE_COUNT: usize = 8;

/// The stage run at position `i` of the fixed stage order.
pub open spec fn spec_stage_at(i: int) -> BootStage {
    if i == 0 {
        BootStage::EarlyHardware
    } else if i == 1 {
        BootStage::CorePeripherals
    } else if i == 2 {
        BootStage::MemorySubsystem
    } else if i == 3 {
        BootStage::Allocator
    } else if i == 4 {
        BootStage::StorageProbe
    } else if i == 5 {
        BootStage::PowerMonitor
    } else if i == 6 {
        BootStage::RefrigeratorInterface
    } else {
        BootStage::Shell
    }
}

/// The per-stage failure policy.
///
/// Storage probing is non-fatal by design and the early stages are fatal by
/// necessity; whether the auxiliary bring-up stages (power monitor,
/// refrigerator interface) are fatal is policy, kept configurable rather
/// than wired in.
#[derive(Debug, Clone, Copy, PartialEq, Eq, Structural)]
pub struct StagePolicy {
    pub aux_fatal: bool,
}

/// Whether a failure of `stage` halts the boot under policy `p`.
pub open spec fn spec_is_fatal(p: StagePolicy, stage: BootStage) -> bool {
    match stage {
        BootStage::StorageProbe => false,
        BootStage::PowerMonitor => p.aux_fatal,
        BootStage::RefrigeratorInterface => p.aux_fatal,
        _ => true,
    }
}

impl StagePolicy {
    /// The policy of the current design: auxiliary stages are fatal.
    pub fn new() -> (p: StagePolicy)
        ensures
            p.aux_fatal,
    {
        StagePolicy { aux_fatal: true }
    }

    pub fn classifies_fatal(&self, stage: BootStage) -> (r: bool)
        ensures
            r == spec_is_fatal(*self, stage),
    {
        match stage {
            BootStage::StorageProbe => false,
            BootStage::PowerMonitor => self.aux_fatal,
            BootStage::RefrigeratorInterface => self.aux_fatal,
            _ => true,
        }
    }
}

/// The boot orchestrator: runs the fixed stage list top to bottom and
/// classifies each outcome.
///
/// The stages' work — register programming, probing, bus traffic — is done
/// outside and each outcome is handed back through `record_outcome`, which
/// makes every sequencing decision: a failed fatal stage sets the system
/// state to `Error` and halts the boot for good; a failed non-fatal stage is
/// absorbed and the boot carries on; when the last stage has succeeded the
/// system state becomes `Running`.
pub struct BootOrchestrator {
    policy: StagePolicy,
    next_stage: usize,
    halted: bool,
}

impl BootOrchestrator {
    pub closed spec fn policy(&self) -> StagePolicy {
        self.policy
    }

    pub closed spec fn next_index(&self) -> int {
        self.next_stage as int
    }

    pub closed spec fn halted(&self) -> bool {
        self.halted
    }

    pub open spec fn wf(&self) -> bool {
        0 <= self.next_index() <= STAGE_COUNT
    }

    /// Whether every stage has been run and none failed fatally.
    pub open spec fn completed(&self) -> bool {
        !self.halted() && self.next_index() == STAGE_COUNT
    }

    pub fn new(policy: StagePolicy) -> (o: BootOrchestrator)
        ensures
            o.wf(),
            o.policy() == policy,
            o.next_index() == 0,
            !o.halted(),
    {
        BootOrchestrator { policy, next_stage: 0, halted: false }
    }

    /// The stage whose work should be done next, `None` once the boot has
    /// completed or halted.
    pub fn current_stage(&self) -> (r: Option<BootStage>)
        requires
            self.wf(),
        ensures
            r == if !self.halted() && self.next_index() < STAGE_COUNT {
                Some(spec_stage_at(self.next_index()))
            } else {
                None::<BootStage>
            },
    {
        if self.halted || self.next_stage >= STAGE_COUNT {
            None
        } else {
            let s = match self.next_stage {
                0 => BootStage::EarlyHardware,
                1 => BootStage::CorePeripherals,
                2 => BootStage::MemorySubsystem,
                3 => BootStage::Allocator,
                4 => BootStage::StorageProbe,
                5 => BootStage::PowerMonitor,
                6 => BootStage::RefrigeratorInterface,
                _ => BootStage::Shell,
            };
            Some(s)
        }
    }

    /// Record the outcome of the stage whose turn it was, and drive the
    /// system state accordingly.
    pub fn record_outcome(&mut self, ok: bool, reg: &mut SystemStateRegistry)
        requires
            old(self).wf(),
            !old(self).halted(),
            old(self).next_index() < STAGE_COUNT,
            old(reg).current() == SystemState::Initializing,
        ensures
            final(self).wf(),
            final(self).policy() == old(self).policy(),
            ({
                let stage = spec_stage_at(old(self).next_index());
                if !ok && spec_is_fatal(old(self).policy(), stage) {
                    &&& final(self).halted()
                    &&& final(self).next_index() == old(self).next_index()
                    &&& final(reg).current() == SystemState::Error
                } else {
                    &&& !final(self).halted()
                    &&& final(self).next_index() == old(self).next_index() + 1
                    &&& final(reg).current() == if old(self).next_index() + 1 == STAGE_COUNT {
                        SystemState::Running
                    } else {
                        SystemState::Initializing
                    }
                }
            }),
    {
        let stage = match self.next_stage {
            0 => BootStage::EarlyHardware,
            1 => BootStage::CorePeripherals,
            2 => BootStage::MemorySubsystem,
            3 => BootStage::Allocator,
            4 => BootStage::StorageProbe,
            5 => BootStage::PowerMonitor,
            6 => BootStage::RefrigeratorInterface,
            _ => BootStage::Shell,
        };
        if !ok && self.policy.classifies_fatal(stage) {
            self.halted = true;
            set_system_state(reg, SystemState::Error);
        } else {
            self.next_stage = self.next_stage + 1;
            if self.next_stage == STAGE_COUNT {
                set_system_state(reg, SystemState::Running);
            }
        }
    }
}

} // verus!
