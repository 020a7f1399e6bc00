use ktd2026_led_driver::constants::{
    Ktd2026LED, Ktd2026Mode, Ktd2026Pwm, RegBitPos, RegEnableResetBitPos, RegEnableResetMask,
    RegMask, RegValue, Register, TCtrlResetModes, Value, KTD2026_NUM_REGISTERS,
    MASK_TIMER_SLOT_CONTROL, MAX_LED_COUNT,
};
use ktd2026_led_driver::{Transport, KTD2026};

/// In-memory bus that records every write for assertion; the read-back half
/// hands out a fixed byte so pass-through can be observed.
struct MockBus {
    writes: Vec<(u8, Vec<u8>)>,
    fail: bool,
}

impl MockBus {
    fn new() -> MockBus {
        MockBus { writes: Vec::new(), fail: false }
    }

    fn failing() -> MockBus {
        MockBus { writes: Vec::new(), fail: true }
    }
}

impl Transport for MockBus {
    type Error = u8;

    fn write(&mut self, address: u8, bytes: &[u8]) -> Result<(), u8> {
        if self.fail {
            return Err(7);
        }
        self.writes.push((address, bytes.to_vec()));
        Ok(())
    }

    fn write_read(&mut self, address: u8, bytes: &[u8], buffer: &mut [u8]) -> Result<(), u8> {
        if self.fail {
            return Err(7);
        }
        self.writes.push((address, bytes.to_vec()));
        for b in buffer.iter_mut() {
            *b = 0xAB;
        }
        Ok(())
    }
}

fn shadow_bytes(d: &mut KTD2026<MockBus>) -> Vec<u8> {
    let mut out = Vec::new();
    for a in 0..KTD2026_NUM_REGISTERS as u8 {
        let reg = Register::from_value(a).unwrap();
        out.push(d.read_shadow_memory(reg));
    }
    out
}

#[test]
fn register_addr_round_trip() {
    for a in 0..10u8 {
        let reg = Register::from_value(a).unwrap();
        assert_eq!(reg.addr(), a);
    }
    assert!(Register::from_value(10).is_none());
    assert!(Register::from_value(0xFF).is_none());
}

#[test]
fn register_map_constants() {
    assert_eq!(Register::RegEnableReset.addr(), 0x00);
    assert_eq!(Register::RegFlashPeriod.addr(), 0x01);
    assert_eq!(Register::RegFlashOnTime1.addr(), 0x02);
    assert_eq!(Register::RegFlashOnTime2.addr(), 0x03);
    assert_eq!(Register::RegChannelControl.addr(), 0x04);
    assert_eq!(Register::RegRampRate.addr(), 0x05);
    assert_eq!(Register::RegLED1CurrentOut.addr(), 0x06);
    assert_eq!(Register::RegLED4CurrentOut.addr(), 0x09);
    assert_eq!(KTD2026_NUM_REGISTERS, 10);
    assert_eq!(MAX_LED_COUNT, 3);
    assert_eq!(MASK_TIMER_SLOT_CONTROL, 0xF8);
}

#[test]
fn field_constant_values() {
    assert_eq!(RegEnableResetMask::MaskTCtrlReset.mask(), 0x07);
    assert_eq!(RegEnableResetBitPos::PosTCtrlReset.position(), 0);
    assert_eq!(TCtrlResetModes::Tslot1Ctrl.value(), 0x00);
    assert_eq!(TCtrlResetModes::Tslot3Ctrl.value(), 0x02);
    assert_eq!(TCtrlResetModes::DoNothing.value(), 0x04);
    assert_eq!(TCtrlResetModes::ResetCompleteChip.value(), 0x07);
    assert_eq!(Ktd2026Mode::LedAlwaysOff.value(), 0x00);
    assert_eq!(Ktd2026Mode::LedAlwaysOn.value(), 0x01);
    assert_eq!(Ktd2026Mode::LedSetPwm1.value(), 0x02);
    assert_eq!(Ktd2026Mode::LedSetPwm2.value(), 0x03);
    assert_eq!(Ktd2026LED::LedG.value(), 0);
    assert_eq!(Ktd2026LED::LedB.value(), 2);
    assert_eq!(Ktd2026LED::LedR.value(), 4);
    assert_eq!(Ktd2026Pwm::Pwm1.value(), 0);
    assert_eq!(Ktd2026Pwm::Pwm2.value(), 1);
}

#[test]
fn new_driver_starts_zeroed() {
    let mut d = KTD2026::new(MockBus::new(), 0x30);
    assert_eq!(shadow_bytes(&mut d), vec![0u8; 10]);
    assert_eq!(d.get_led_channel(Ktd2026LED::LedR), 0);
    assert_eq!(d.get_led_channel(Ktd2026LED::LedG), 0);
    assert_eq!(d.get_led_channel(Ktd2026LED::LedB), 0);
}

#[test]
fn init_assigns_channels_and_resets_shadow() {
    let mut d = KTD2026::new(MockBus::new(), 0x30);
    d.update_shadow_memory(Register::RegRampRate, 0x55);
    d.init((2, 0, 1), (10, 20, 30));
    assert_eq!(shadow_bytes(&mut d), vec![0u8; 10]);
    assert_eq!(d.get_led_channel(Ktd2026LED::LedR), 2);
    assert_eq!(d.get_led_channel(Ktd2026LED::LedG), 0);
    assert_eq!(d.get_led_channel(Ktd2026LED::LedB), 1);
    // No bus traffic during initialization.
    let bus = d.destroy();
    assert!(bus.writes.is_empty());
}

#[test]
fn shadow_store_set_get() {
    let mut d = KTD2026::new(MockBus::new(), 0x30);
    d.update_shadow_memory(Register::RegRampRate, 0xC3);
    assert_eq!(d.read_shadow_memory(Register::RegRampRate), 0xC3);
    // Never-written addresses read as the zero default.
    assert_eq!(d.read_shadow_memory(Register::RegFlashPeriod), 0x00);
    // The plain shadow update issues no bus traffic.
    let bus = d.destroy();
    assert!(bus.writes.is_empty());
}

#[test]
fn write_register_sends_address_then_data() {
    let mut d = KTD2026::new(MockBus::new(), 0x30);
    d.write_register(Register::RegRampRate, 0x5A).unwrap();
    // The shadow store is not touched by a raw register write.
    assert_eq!(d.read_shadow_memory(Register::RegRampRate), 0x00);
    let bus = d.destroy();
    assert_eq!(bus.writes, vec![(0x30u8, vec![0x05u8, 0x5Au8])]);
}

#[test]
fn read_register_passes_back_bus_byte() {
    let mut d = KTD2026::new(MockBus::new(), 0x30);
    let v = d.read_register(Register::RegChannelControl).unwrap();
    assert_eq!(v, 0xAB);
    let bus = d.destroy();
    assert_eq!(bus.writes, vec![(0x30u8, vec![0x04u8])]);
}

#[test]
fn update_device_memory_records_then_writes() {
    let mut d = KTD2026::new(MockBus::new(), 0x31);
    d.update_device_memory(Register::RegFlashPeriod, 0x42).unwrap();
    assert_eq!(d.read_shadow_memory(Register::RegFlashPeriod), 0x42);
    let bus = d.destroy();
    assert_eq!(bus.writes, vec![(0x31u8, vec![0x01u8, 0x42u8])]);
}

#[test]
fn modify_register_masks_field() {
    let mut d = KTD2026::new(MockBus::new(), 0x30);
    d.update_shadow_memory(Register::RegEnableReset, 0b1010_0101);
    d.modify_register(Register::RegEnableReset, 0b0001_1000, 3, 0b11).unwrap();
    // Bits outside the mask kept, the 2-bit field at position 3 replaced.
    assert_eq!(d.read_shadow_memory(Register::RegEnableReset), 0b1011_1101);
}

#[test]
fn modify_register_is_idempotent() {
    let mut d = KTD2026::new(MockBus::new(), 0x30);
    d.update_shadow_memory(Register::RegEnableReset, 0xA5);
    d.modify_register(Register::RegEnableReset, 0x3C, 2, 0x0F).unwrap();
    let once = d.read_shadow_memory(Register::RegEnableReset);
    d.modify_register(Register::RegEnableReset, 0x3C, 2, 0x0F).unwrap();
    let twice = d.read_shadow_memory(Register::RegEnableReset);
    assert_eq!(once, twice);
}

#[test]
fn set_period_round_trip() {
    let mut d = KTD2026::new(MockBus::new(), 0x30);
    for m in [0u8, 1, 2, 0x7F, 0xFE, 0xFF] {
        d.set_period(m).unwrap();
        assert_eq!(d.read_shadow_memory(Register::RegFlashPeriod), m);
    }
}

#[test]
fn set_pwm_duty_targets_its_register() {
    let mut d = KTD2026::new(MockBus::new(), 0x30);
    d.set_pwm_duty(Ktd2026Pwm::Pwm1, 0x20).unwrap();
    d.set_pwm_duty(Ktd2026Pwm::Pwm2, 0x40).unwrap();
    assert_eq!(d.read_shadow_memory(Register::RegFlashOnTime1), 0x20);
    assert_eq!(d.read_shadow_memory(Register::RegFlashOnTime2), 0x40);
}

#[test]
fn brightness_writes_are_independent() {
    let mut d = KTD2026::new(MockBus::new(), 0x30);
    // One color per channel 0..2; channel 3 written directly.
    d.init((0, 1, 2), (0, 0, 0));
    d.led_on(Ktd2026LED::LedG, Ktd2026Mode::LedAlwaysOn, 0x22).unwrap();
    d.led_on(Ktd2026LED::LedB, Ktd2026Mode::LedAlwaysOn, 0x33).unwrap();
    d.update_shadow_memory(Register::RegLED4CurrentOut, 0x44);
    // Writing channel 0's brightness leaves channels 1 to 3 alone.
    d.led_on(Ktd2026LED::LedR, Ktd2026Mode::LedAlwaysOn, 0x11).unwrap();
    assert_eq!(d.read_shadow_memory(Register::RegLED1CurrentOut), 0x11);
    assert_eq!(d.read_shadow_memory(Register::RegLED2CurrentOut), 0x22);
    assert_eq!(d.read_shadow_memory(Register::RegLED3CurrentOut), 0x33);
    assert_eq!(d.read_shadow_memory(Register::RegLED4CurrentOut), 0x44);
}

#[test]
fn always_off_clears_field_from_any_prior_mode() {
    for prior in [
        Ktd2026Mode::LedAlwaysOff,
        Ktd2026Mode::LedAlwaysOn,
        Ktd2026Mode::LedSetPwm1,
        Ktd2026Mode::LedSetPwm2,
    ] {
        let mut d = KTD2026::new(MockBus::new(), 0x30);
        // Green on channel 1; red and blue on the neighboring channels.
        d.init((0, 1, 2), (0, 0, 0));
        d.led_on(Ktd2026LED::LedR, Ktd2026Mode::LedSetPwm2, 0).unwrap();
        d.led_on(Ktd2026LED::LedB, Ktd2026Mode::LedAlwaysOn, 0).unwrap();
        d.led_on(Ktd2026LED::LedG, prior, 0).unwrap();
        let before = d.read_shadow_memory(Register::RegChannelControl);
        d.led_on(Ktd2026LED::LedG, Ktd2026Mode::LedAlwaysOff, 0).unwrap();
        let after = d.read_shadow_memory(Register::RegChannelControl);
        // Exactly channel 1's 2-bit field is cleared.
        assert_eq!((after >> 2) & 0b11, 0b00);
        assert_eq!(after & !(0b11 << 2), before & !(0b11 << 2));
        // The neighbors keep their modes.
        assert_eq!(after & 0b11, 0b11);
        assert_eq!((after >> 4) & 0b11, 0b01);
    }
}

#[test]
fn scenario_red_on_assigned_channel() {
    let mut d = KTD2026::new(MockBus::new(), 0x30);
    d.init((2, 0, 1), (0, 0, 0));
    d.led_on(Ktd2026LED::LedR, Ktd2026Mode::LedAlwaysOn, 0xFF).unwrap();
    // Red sits on channel 2: brightness register 0x06 + 2 = 0x08, and
    // channel-control bits 5:4 set to 01 over the prior byte 0x00.
    assert_eq!(d.read_shadow_memory(Register::RegLED3CurrentOut), 0xFF);
    assert_eq!(d.read_shadow_memory(Register::RegChannelControl), 0x10);
    let bus = d.destroy();
    assert_eq!(
        bus.writes,
        vec![(0x30u8, vec![0x08u8, 0xFFu8]), (0x30u8, vec![0x04u8, 0x10u8])]
    );
}

#[test]
fn scenario_timerslot_keeps_upper_bits() {
    let mut d = KTD2026::new(MockBus::new(), 0x30);
    d.update_shadow_memory(Register::RegEnableReset, 0xF8);
    d.timerslot_control(TCtrlResetModes::Tslot3Ctrl).unwrap();
    assert_eq!(d.read_shadow_memory(Register::RegEnableReset), 0xFA);
}

#[test]
fn scenario_sequential_led_on_keeps_first_field() {
    let mut d = KTD2026::new(MockBus::new(), 0x30);
    d.init((0, 1, 2), (0, 0, 0));
    d.led_on(Ktd2026LED::LedR, Ktd2026Mode::LedAlwaysOn, 0x60).unwrap();
    d.led_on(Ktd2026LED::LedB, Ktd2026Mode::LedAlwaysOn, 0x60).unwrap();
    let ctrl = d.read_shadow_memory(Register::RegChannelControl);
    // Red (channel 0) still at 01, blue (channel 2) now 01.
    assert_eq!(ctrl & 0b11, 0b01);
    assert_eq!((ctrl >> 4) & 0b11, 0b01);
    assert_eq!(ctrl, 0x11);
}

#[test]
fn transport_failure_is_propagated_shadow_kept() {
    let mut d = KTD2026::new(MockBus::failing(), 0x30);
    assert_eq!(d.set_period(0x42), Err(7));
    // The shadow store already holds the intended value: the documented
    // divergence on a failed physical write.
    assert_eq!(d.read_shadow_memory(Register::RegFlashPeriod), 0x42);

    d.init((0, 1, 2), (0, 0, 0));
    assert_eq!(d.led_on(Ktd2026LED::LedR, Ktd2026Mode::LedAlwaysOn, 0x60), Err(7));
    assert_eq!(d.read_shadow_memory(Register::RegLED1CurrentOut), 0x60);
    assert_eq!(d.read_register(Register::RegEnableReset), Err(7));
}

#[test]
fn destroy_returns_the_bus() {
    let mut d = KTD2026::new(MockBus::new(), 0x30);
    d.set_period(9).unwrap();
    let bus = d.destroy();
    assert_eq!(bus.writes, vec![(0x30u8, vec![0x01u8, 0x09u8])]);
}
