use vstd::prelude::*;

verus! {

/// Errors of the power-supply monitor.
#[derive(Debug, Clone, Copy, PartialEq, Eq, Structural)]
pub enum PsuError {
    PowerGoodSignalError,
    VoltageMeasurementError,
    ControlPinError,
    NotInitialized,
    GpioConfigurationError,
}

/// Rated output of the supervised supply, in watts.
pub const PSU_WATTAGE_WATTS: u16 = 200;

/// The voltage rails the monitor can be asked about.
#[derive(Debug, Clone, Copy, PartialEq, Eq, Structural)]
pub enum VoltageRail {
    Volt3_3,
    Volt5,
    Volt12,
}

/// The capability object for the power-supply monitor.
///
/// The pin and ADC programming that watches the supply is the board layer's
/// work; this object records whether that bring-up has been done, which is
/// what the rest of the system asks about.
pub struct PsuMonitor {
    is_initialized: bool,
}

impl PsuMonitor {
    pub closed spec fn initialized(&self) -> bool {
        self.is_initialized
    }

    pub fn new() -> (m: PsuMonitor)
        ensures
            !m.initialized(),
    {
        PsuMonitor { is_initialized: false }
    }

    /// Record that the monitor's pins have been brought up.
    pub fn init(&mut self) -> (r: Result<(), PsuError>)
        ensures
            final(self).initialized(),
            r == Ok::<(), PsuError>(()),
    {
        self.is_initialized = true;
        Ok(())
    }
}

} // verus!
