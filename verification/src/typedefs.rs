//! The driver's value types: hours with an optional meridiem, the error type,
//! the interrupt kinds, and the power-management codes.

use vstd::prelude::*;

verus! {

/// The AM/PM indicator used only in 12-hour mode.
#[derive(Debug, PartialEq, Eq, Clone, Copy)]
pub enum Meridiem {
    AM,
    PM,
}

impl Meridiem {
    /// The bit the chip stores in the AMPM position of the HOURS register.
    pub open spec fn spec_value(self) -> u8 {
        match self {
            Meridiem::AM => 0x0,
            Meridiem::PM => 0x1,
        }
    }

    pub fn value(self) -> (v: u8)
        ensures
            v == self.spec_value(),
    {
        match self {
            Meridiem::AM => 0x0,
            Meridiem::PM => 0x1,
        }
    }
}

/// An hours reading. When `meridiem` is `None` the chip was in 24-hour mode
/// and `hours` is 0 to 23; when it is `Some` the chip was in 12-hour mode and
/// `hours` is 1 to 12.
#[derive(Debug, PartialEq, Eq, Clone, Copy)]
pub struct Hours {
    pub hours: u8,
    pub meridiem: Option<Meridiem>,
}

impl Hours {
    /// Store the fields unchecked: the documented ranges (0 to 23 without a
    /// meridiem, 1 to 12 with one) are the caller's concern, and the driver
    /// returns whatever value the chip's registers encode.
    pub fn new(hours: u8, meridiem: Option<Meridiem>) -> (h: Self)
        ensures
            h == (Hours { hours, meridiem }),
    {
        Hours { hours, meridiem }
    }
}

/// A driver failure: any error surfaced by the injected bus, wrapped
/// unchanged.
#[derive(Debug, PartialEq, Eq)]
pub enum Pcf8523Error<E> {
    I2C(E),
}

/// The interrupt sources the chip reports. Each is bound to one flag bit and
/// one enable bit in the control registers.
#[derive(Debug, PartialEq, Eq, Clone, Copy)]
pub enum Pcf8523Interrupt {
    Alarm,
    BatterySwitchOver,
    CountdownTimerA,
    CountdownTimerB,
    Second,
    WatchdogTimerA,
}

/// The six legal battery switch-over / low-voltage-detection codes for bits
/// 7..5 of CONTROL_3, per the datasheet.
#[derive(Debug, PartialEq, Eq, Clone, Copy)]
pub enum PowerManagement {
    SwitchOverStandardLowDetectionEnabled,
    SwitchOverDirectSwitchingLowDetectionEnabled,
    SwitchOverDisabledLowDetectionEnabled,
    SwitchOverStandardLowDetectionDisabled,
    SwitchOverDirectSwitchingLowDetectionDisabled,
    SwitchOverDisabledLowDetectionDisabled,
}

impl PowerManagement {
    /// The 3-bit code the chip stores for this mode.
    pub open spec fn spec_code(self) -> u8 {
        match self {
            PowerManagement::SwitchOverStandardLowDetectionEnabled => 0x0,
            PowerManagement::SwitchOverDirectSwitchingLowDetectionEnabled => 0x1,
            PowerManagement::SwitchOverDisabledLowDetectionEnabled => 0x2,
            PowerManagement::SwitchOverStandardLowDetectionDisabled => 0x4,
            PowerManagement::SwitchOverDirectSwitchingLowDetectionDisabled => 0x5,
            PowerManagement::SwitchOverDisabledLowDetectionDisabled => 0x7,
        }
    }

    pub fn code(self) -> (c: u8)
        ensures
            c == self.spec_code(),
    {
        match self {
            PowerManagement::SwitchOverStandardLowDetectionEnabled => 0x0,
            PowerManagement::SwitchOverDirectSwitchingLowDetectionEnabled => 0x1,
            PowerManagement::SwitchOverDisabledLowDetectionEnabled => 0x2,
            PowerManagement::SwitchOverStandardLowDetectionDisabled => 0x4,
            PowerManagement::SwitchOverDirectSwitchingLowDetectionDisabled => 0x5,
            PowerManagement::SwitchOverDisabledLowDetectionDisabled => 0x7,
        }
    }
}

} // verus!
