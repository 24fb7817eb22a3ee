use vstd::prelude::*;
use crate::psu::PsuMonitor;
use crate::refrigerator::RefrigeratorController;
use crate::state::SystemStateRegistry;
use crate::storage::StorageRegistry;

verus! {

/// A bootstrap image staged for a control transfer: `payload` is to be copied
/// to `dest_address` and jumped to. Performing the copy and the jump is the
/// board layer's work; this library only ever produces the request.
pub struct BootRequest {
    pub dest_address: usize,
    pub payload: Vec<u8>,
}

/// The system-wide context: every registry and capability in one explicitly
/// constructed value, created once at startup and passed by reference, so
/// that there is a single owner instead of scattered mutable globals.
pub struct SystemContext {
    pub state_reg: SystemStateRegistry,
    pub storage: StorageRegistry,
    pub psu: Option<PsuMonitor>,
    pub fridge: Option<RefrigeratorController>,
    pub boot_request: Option<BootRequest>,
}

impl SystemContext {
    pub open spec fn wf(&self) -> bool {
        self.storage.wf()
    }

    /// A fresh context: nothing probed, nothing staged, state `Initializing`.
    pub fn new() -> (c: SystemContext)
        ensures
            c.wf(),
            c.state_reg.current() == crate::state::SystemState::Initializing,
            c.storage.emic is None,
            c.storage.sd is None,
            c.psu is None,
            c.fridge is None,
            c.boot_request is None,
    {
        SystemContext {
            state_reg: SystemStateRegistry::new(),
            storage: StorageRegistry::new(),
            psu: None,
            fridge: None,
            boot_request: None,
        }
    }
}

} // verus!
