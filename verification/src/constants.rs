//! Register map of the KTD2026 chip: register addresses, bit masks, bit
//! positions and the enumerated legal values of each field.

use vstd::prelude::*;

verus! {

/// Number of byte-wide registers on the chip (addresses 0x00 through 0x09).
pub const KTD2026_NUM_REGISTERS: usize = 10;

/// Number of logical LED colors the driver manages.
pub const MAX_LED_COUNT: usize = 3;

/// Keeps every bit of the enable/reset register except the time-slot/reset
/// field in bits 2:0.
pub const MASK_TIMER_SLOT_CONTROL: u8 = 0xF8;

/// One byte-wide hardware register of the chip.
#[derive(Clone, Copy, Debug)]
pub enum Register {
    RegEnableReset,
    RegFlashPeriod,
    RegFlashOnTime1,
    RegFlashOnTime2,
    RegChannelControl,
    RegRampRate,
    RegLED1CurrentOut,
    RegLED2CurrentOut,
    RegLED3CurrentOut,
    RegLED4CurrentOut,
}

impl Register {
    /// Bus address of this register.
    pub open spec fn spec_addr(self) -> u8 {
        match self {
            Register::RegEnableReset => 0x00,
            Register::RegFlashPeriod => 0x01,
            Register::RegFlashOnTime1 => 0x02,
            Register::RegFlashOnTime2 => 0x03,
            Register::RegChannelControl => 0x04,
            Register::RegRampRate => 0x05,
            Register::RegLED1CurrentOut => 0x06,
            Register::RegLED2CurrentOut => 0x07,
            Register::RegLED3CurrentOut => 0x08,
            Register::RegLED4CurrentOut => 0x09,
        }
    }

    pub fn addr(self) -> (r: u8)
        ensures
            r == self.spec_addr(),
            r < KTD2026_NUM_REGISTERS,
    {
        match self {
            Register::RegEnableReset => 0x00,
            Register::RegFlashPeriod => 0x01,
            Register::RegFlashOnTime1 => 0x02,
            Register::RegFlashOnTime2 => 0x03,
            Register::RegChannelControl => 0x04,
            Register::RegRampRate => 0x05,
            Register::RegLED1CurrentOut => 0x06,
            Register::RegLED2CurrentOut => 0x07,
            Register::RegLED3CurrentOut => 0x08,
            Register::RegLED4CurrentOut => 0x09,
        }
    }

    /// Inverse of `addr`: the register at an address, or `None` where no
    /// register is defined.
    pub fn from_value(value: u8) -> (r: Option<Self>)
        ensures
            value < KTD2026_NUM_REGISTERS ==> (r matches Some(reg) && reg.spec_addr() == value),
            value >= KTD2026_NUM_REGISTERS ==> r is None,
    {
        match value {
            0x00 => Some(Register::RegEnableReset),
            0x01 => Some(Register::RegFlashPeriod),
            0x02 => Some(Register::RegFlashOnTime1),
            0x03 => Some(Register::RegFlashOnTime2),
            0x04 => Some(Register::RegChannelControl),
            0x05 => Some(Register::RegRampRate),
            0x06 => Some(Register::RegLED1CurrentOut),
            0x07 => Some(Register::RegLED2CurrentOut),
            0x08 => Some(Register::RegLED3CurrentOut),
            0x09 => Some(Register::RegLED4CurrentOut),
            _ => None,
        }
    }
}

/// Mask of a register sub-field.
pub trait RegMask {
    spec fn spec_mask(self) -> u8;

    fn mask(self) -> (r: u8)
        ensures
            r == self.spec_mask(),
    ;
}

/// Bit position of a register sub-field.
pub trait RegBitPos {
    spec fn spec_position(self) -> u8;

    fn position(self) -> (r: u8)
        ensures
            r == self.spec_position(),
    ;
}

/// Byte encoding of a register field value.
pub trait RegValue {
    spec fn spec_value(self) -> u8;

    fn value(self) -> (r: u8)
        ensures
            r == self.spec_value(),
    ;
}

/// Byte encoding of a driver-level enumerated value.
pub trait Value {
    spec fn spec_value(self) -> u8;

    fn value(self) -> (r: u8)
        ensures
            r == self.spec_value(),
    ;
}

/// Masks of the enable/reset register fields.
#[derive(Clone, Copy, Debug)]
pub enum RegEnableResetMask {
    MaskTCtrlReset,
}

impl RegMask for RegEnableResetMask {
    open spec fn spec_mask(self) -> u8 {
        match self {
            RegEnableResetMask::MaskTCtrlReset => 0x07,
        }
    }

    fn mask(self) -> (r: u8) {
        match self {
            RegEnableResetMask::MaskTCtrlReset => 0x07,
        }
    }
}

/// Bit positions of the enable/reset register fields.
#[derive(Clone, Copy, Debug)]
pub enum RegEnableResetBitPos {
    PosTCtrlReset,
}

impl RegBitPos for RegEnableResetBitPos {
    open spec fn spec_position(self) -> u8 {
        match self {
            RegEnableResetBitPos::PosTCtrlReset => 0,
        }
    }

    fn position(self) -> (r: u8) {
        match self {
            RegEnableResetBitPos::PosTCtrlReset => 0,
        }
    }
}

/// Legal values of the time-slot/reset field (bits 2:0 of the enable/reset
/// register): select one of four time slots for control, do nothing, or one
/// of three reset behaviors.
#[derive(Clone, Copy, Debug)]
pub enum TCtrlResetModes {
    Tslot1Ctrl,
    Tslot2Ctrl,
    Tslot3Ctrl,
    Tslot4Ctrl,
    DoNothing,
    ResetRegistersOnly,
    ResetMainDigitalOnly,
    ResetCompleteChip,
}

impl RegValue for TCtrlResetModes {
    open spec fn spec_value(self) -> u8 {
        match self {
            TCtrlResetModes::Tslot1Ctrl => 0x00,
            TCtrlResetModes::Tslot2Ctrl => 0x01,
            TCtrlResetModes::Tslot3Ctrl => 0x02,
            TCtrlResetModes::Tslot4Ctrl => 0x03,
            TCtrlResetModes::DoNothing => 0x04,
            TCtrlResetModes::ResetRegistersOnly => 0x05,
            TCtrlResetModes::ResetMainDigitalOnly => 0x06,
            TCtrlResetModes::ResetCompleteChip => 0x07,
        }
    }

    fn value(self) -> (r: u8) {
        match self {
            TCtrlResetModes::Tslot1Ctrl => 0x00,
            TCtrlResetModes::Tslot2Ctrl => 0x01,
            TCtrlResetModes::Tslot3Ctrl => 0x02,
            TCtrlResetModes::Tslot4Ctrl => 0x03,
            TCtrlResetModes::DoNothing => 0x04,
            TCtrlResetModes::ResetRegistersOnly => 0x05,
            TCtrlResetModes::ResetMainDigitalOnly => 0x06,
            TCtrlResetModes::ResetCompleteChip => 0x07,
        }
    }
}

/// Logical LED colors.
#[derive(Clone, Copy, Debug)]
pub enum Ktd2026LED {
    LedG,
    LedB,
    LedR,
}

impl Ktd2026LED {
    /// Index of this color in the driver's channel-assignment table, which is
    /// laid out red, green, blue.
    pub open spec fn spec_index(self) -> int {
        match self {
            Ktd2026LED::LedR => 0,
            Ktd2026LED::LedG => 1,
            Ktd2026LED::LedB => 2,
        }
    }

    pub fn index(self) -> (r: usize)
        ensures
            r == self.spec_index(),
            r < MAX_LED_COUNT,
    {
        match self {
            Ktd2026LED::LedR => 0,
            Ktd2026LED::LedG => 1,
            Ktd2026LED::LedB => 2,
        }
    }
}

impl Value for Ktd2026LED {
    open spec fn spec_value(self) -> u8 {
        match self {
            Ktd2026LED::LedG => 0,
            Ktd2026LED::LedB => 2,
            Ktd2026LED::LedR => 4,
        }
    }

    fn value(self) -> (r: u8) {
        match self {
            Ktd2026LED::LedG => 0,
            Ktd2026LED::LedB => 2,
            Ktd2026LED::LedR => 4,
        }
    }
}

/// Modes of one channel's 2-bit field in the channel-control register.
#[derive(Clone, Copy, Debug)]
pub enum Ktd2026Mode {
    LedAlwaysOff,
    LedAlwaysOn,
    LedSetPwm1,
    LedSetPwm2,
}

impl Value for Ktd2026Mode {
    open spec fn spec_value(self) -> u8 {
        match self {
            Ktd2026Mode::LedAlwaysOff => 0x00,
            Ktd2026Mode::LedAlwaysOn => 0x01,
            Ktd2026Mode::LedSetPwm1 => 0x02,
            Ktd2026Mode::LedSetPwm2 => 0x03,
        }
    }

    fn value(self) -> (r: u8) {
        match self {
            Ktd2026Mode::LedAlwaysOff => 0x00,
            Ktd2026Mode::LedAlwaysOn => 0x01,
            Ktd2026Mode::LedSetPwm1 => 0x02,
            Ktd2026Mode::LedSetPwm2 => 0x03,
        }
    }
}

/// The two PWM timers whose duty multipliers occupy the flash-on-time
/// registers.
#[derive(Clone, Copy, Debug)]
pub enum Ktd2026Pwm {
    Pwm1,
    Pwm2,
}

impl Value for Ktd2026Pwm {
    open spec fn spec_value(self) -> u8 {
        match self {
            Ktd2026Pwm::Pwm1 => 0,
            Ktd2026Pwm::Pwm2 => 1,
        }
    }

    fn value(self) -> (r: u8) {
        match self {
            Ktd2026Pwm::Pwm1 => 0,
            Ktd2026Pwm::Pwm2 => 1,
        }
    }
}

} // verus!
