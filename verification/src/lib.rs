//! Register-level driver for the KTD2026 multi-channel LED current driver.
//!
//! The chip's register reads are unreliable, so the driver keeps an
//! authoritative host-side copy of every register (the shadow register
//! store) and always writes from that copy. Every operation computes the
//! next register byte from the shadow store, records it there, and then
//! issues a single bus write through a caller-supplied [`Transport`].

use vstd::prelude::*;

pub mod constants;
pub mod device_impl;

use crate::constants::{Ktd2026LED, KTD2026_NUM_REGISTERS, MAX_LED_COUNT};

verus! {

/// Capability for the physical two-wire bus. The driver depends only on this
/// trait, not on a concrete bus implementation; callers hand an implementor
/// to [`KTD2026::new`].
///
/// Nothing is promised of either operation's outcome: a bus transaction may
/// fail for reasons outside the driver (device absent, arbitration lost),
/// and a read-back is not trusted for correctness.
pub trait Transport {
    type Error;

    /// Send a register-address byte followed by payload bytes to the device
    /// at the given 7-bit address.
    fn write(&mut self, address: u8, bytes: &[u8]) -> Result<(), Self::Error>;

    /// Write `bytes` to the device at the given 7-bit address, then read back
    /// into `buffer` within the same bus transaction.
    fn write_read(&mut self, address: u8, bytes: &[u8], buffer: &mut [u8]) -> Result<
        (),
        Self::Error,
    >;
}

/// Driver for one KTD2026 device: owns the bus transport, the device address
/// and the shadow register store.
pub struct KTD2026<I2C> {
    i2c: I2C,
    address: u8,
    ktd2026_data: Ktd2026Data,
}

/// Channel assignment and initial brightness of one logical LED color.
#[derive(Clone, Copy, Debug)]
pub struct Ktd2026LedParam {
    channel: u8,
    brightness: u8,
}

/// Driver state: the per-color channel assignment and the shadow register
/// store, one byte per hardware register.
pub struct Ktd2026Data {
    leds: [Ktd2026LedParam; MAX_LED_COUNT],
    shadow_register: [u8; KTD2026_NUM_REGISTERS],
}

impl Ktd2026LedParam {
    /// Physical output channel (0 to 3) assigned to the color.
    pub closed spec fn spec_channel(self) -> u8 {
        self.channel
    }

    /// Initial brightness recorded for the color at initialization.
    pub closed spec fn spec_brightness(self) -> u8 {
        self.brightness
    }
}

impl<I2C> KTD2026<I2C> {
    /// The shadow register store: for each register address, the last byte
    /// the driver intended to write to the device at that address.
    pub closed spec fn shadow(self) -> Seq<u8> {
        self.ktd2026_data.shadow_register@
    }

    /// The channel-assignment table, laid out red, green, blue.
    pub closed spec fn led_params(self) -> Seq<Ktd2026LedParam> {
        self.ktd2026_data.leds@
    }

    /// The owned bus transport.
    pub closed spec fn bus(self) -> I2C {
        self.i2c
    }

    /// The device's 7-bit bus address.
    pub closed spec fn device_address(self) -> u8 {
        self.address
    }

    /// Physical channel assigned to a logical LED color.
    pub open spec fn led_channel(self, led: Ktd2026LED) -> u8 {
        self.led_params()[led.spec_index()].spec_channel()
    }

    /// Well-formedness: every assigned channel names one of the chip's four
    /// outputs.
    pub open spec fn wf(self) -> bool {
        forall|i: int|
            0 <= i < MAX_LED_COUNT ==> (#[trigger] self.led_params()[i]).spec_channel() < 4
    }
}

} // verus!
