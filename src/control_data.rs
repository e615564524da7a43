use vstd::prelude::*;

verus! {

/// Raw position of the horn at its centre, in pulses.
pub const HOME_POSITION: u32 = 2048;

/// Values of the Operating Mode register.
#[derive(Clone, Copy, Debug, PartialEq, Eq, Structural)]
pub enum OperatingMode {
    CurrentControlMode,
    VelocityControlMode,
    PositionControlMode,
    ExtendedPosionControlMode,
    CurrentBasedPositionControlMode,
    PWMControMode,
}

impl OperatingMode {
    /// The value written to the Operating Mode register.
    pub open spec fn spec_value(self) -> u8 {
        match self {
            OperatingMode::CurrentControlMode => 0,
            OperatingMode::VelocityControlMode => 1,
            OperatingMode::PositionControlMode => 3,
            OperatingMode::ExtendedPosionControlMode => 4,
            OperatingMode::CurrentBasedPositionControlMode => 5,
            OperatingMode::PWMControMode => 16,
        }
    }

    /// The value written to the Operating Mode register.
    pub fn to_value(&self) -> (r: u8)
        ensures
            r == self.spec_value(),
    {
        match self {
            OperatingMode::CurrentControlMode => 0,
            OperatingMode::VelocityControlMode => 1,
            OperatingMode::PositionControlMode => 3,
            OperatingMode::ExtendedPosionControlMode => 4,
            OperatingMode::CurrentBasedPositionControlMode => 5,
            OperatingMode::PWMControMode => 16,
        }
    }
}

} // verus!
