use vstd::prelude::*;

verus! {

/// Errors of the refrigerator interface.
#[derive(Debug, Clone, Copy, PartialEq, Eq, Structural)]
pub enum RefrigeratorError {
    InterfaceInitializationError,
    CommunicationError,
    InvalidDataFormat,
    UnsupportedOperation,
    Timeout,
    NotInitialized,
    InterfaceConfigurationError,
}

/// The capability object for the refrigerator interface.
///
/// The bus programming that talks to the appliance is the board layer's work;
/// this object records whether that bring-up has been done.
pub struct RefrigeratorController {
    is_initialized: bool,
}

impl RefrigeratorController {
    pub closed spec fn initialized(&self) -> bool {
        self.is_initialized
    }

    pub fn new() -> (c: RefrigeratorController)
        ensures
            !c.initialized(),
    {
        RefrigeratorController { is_initialized: false }
    }

    /// Record that the interface has been brought up.
    pub fn init(&mut self) -> (r: Result<(), RefrigeratorError>)
        ensures
            final(self).initialized(),
            r == Ok::<(), RefrigeratorError>(()),
    {
        self.is_initialized = true;
        Ok(())
    }
}

} // verus!
