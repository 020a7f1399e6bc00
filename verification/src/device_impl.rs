//! The device controller: semantic operations on the chip, each one a
//! masked read-modify-write against the shadow register store followed by a
//! single bus write.

use vstd::prelude::*;

use crate::constants::{
    Ktd2026LED, Ktd2026Mode, Ktd2026Pwm, Register, TCtrlResetModes, Value, RegValue,
    KTD2026_NUM_REGISTERS, MAX_LED_COUNT, MASK_TIMER_SLOT_CONTROL,
};
use crate::{Ktd2026Data, Ktd2026LedParam, Transport, KTD2026};

verus! {

broadcast use vstd::array::group_array_axioms;

/// The shadow register store as construction and initialization leave it:
/// every register byte zero.
pub open spec fn shadow_reset() -> Seq<u8> {
    Seq::new(KTD2026_NUM_REGISTERS as nat, |i: int| 0u8)
}

/// The masked read-modify-write formula: the bits of `current` outside
/// `mask` are kept, and inside `mask` the field `value` shifted to
/// `position` is written.
pub open spec fn masked_update(current: u8, mask: u8, position: u8, value: u8) -> u8 {
    (current & !mask) | ((value << position) & mask)
}

/// Bit position of a channel's 2-bit mode field in the channel-control
/// register: channel `c` occupies bits `2c + 1 : 2c`.
pub open spec fn mode_shift(channel: u8) -> u8 {
    (channel * 2) as u8
}

/// The 2-bit mode field of `channel` in a channel-control byte.
pub open spec fn channel_mode_bits(ctrl: u8, channel: u8) -> u8 {
    (ctrl >> mode_shift(channel)) & 0b11u8
}

/// A channel-control byte after setting one channel's mode: always-off
/// clears exactly that channel's 2-bit field, every other mode ORs its
/// value into the field.
pub open spec fn apply_led_mode(ctrl: u8, channel: u8, mode: Ktd2026Mode) -> u8 {
    match mode {
        Ktd2026Mode::LedAlwaysOff => ctrl & !(0b11u8 << mode_shift(channel)),
        _ => ctrl | (mode.spec_value() << mode_shift(channel)),
    }
}

/// Address of the brightness register dedicated to `channel`.
pub open spec fn brightness_reg(channel: u8) -> int {
    Register::RegLED1CurrentOut.spec_addr() + channel as int
}

/// The shadow register store after a full `led_on` operation on `channel`:
/// the channel's brightness register holds `bright`, and its mode field in
/// the channel-control register is set to `mode`.
pub open spec fn led_on_shadow(s: Seq<u8>, channel: u8, mode: Ktd2026Mode, bright: u8) -> Seq<
    u8,
> {
    s.update(brightness_reg(channel), bright).update(
        Register::RegChannelControl.spec_addr() as int,
        apply_led_mode(s[Register::RegChannelControl.spec_addr() as int], channel, mode),
    )
}

/// Field isolation on the channel-control byte: setting channel `c0`'s mode
/// leaves channel `c1`'s 2-bit field unchanged, for every other channel `c1`
/// and every prior byte.
pub proof fn lemma_mode_update_field_isolation(ctrl: u8, c0: u8, c1: u8, mode: Ktd2026Mode)
    requires
        c0 < 4,
        c1 < 4,
        c0 != c1,
    ensures
        channel_mode_bits(apply_led_mode(ctrl, c0, mode), c1) == channel_mode_bits(ctrl, c1),
{
    let m = mode.spec_value();
    match mode {
        Ktd2026Mode::LedAlwaysOff => {
            assert(((ctrl & !(0b11u8 << mode_shift(c0))) >> mode_shift(c1)) & 0b11u8 == (ctrl
                >> mode_shift(c1)) & 0b11u8) by (bit_vector)
                requires
                    c0 < 4,
                    c1 < 4,
                    c0 != c1,
            ;
        },
        _ => {
            assert(((ctrl | (m << mode_shift(c0))) >> mode_shift(c1)) & 0b11u8 == (ctrl
                >> mode_shift(c1)) & 0b11u8) by (bit_vector)
                requires
                    c0 < 4,
                    c1 < 4,
                    c0 != c1,
                    m < 4,
            ;
        },
    }
}

/// Field isolation on the whole shadow register store: after `led_on` for
/// channel `c0`, the channel-control byte holds the same mode field for
/// every other channel `c1` as before.
pub proof fn lemma_led_on_preserves_other_channel_modes(
    s: Seq<u8>,
    c0: u8,
    c1: u8,
    mode: Ktd2026Mode,
    bright: u8,
)
    requires
        s.len() == KTD2026_NUM_REGISTERS,
        c0 < 4,
        c1 < 4,
        c0 != c1,
    ensures
        channel_mode_bits(
            led_on_shadow(s, c0, mode, bright)[Register::RegChannelControl.spec_addr() as int],
            c1,
        ) == channel_mode_bits(s[Register::RegChannelControl.spec_addr() as int], c1),
{
    lemma_mode_update_field_isolation(
        s[Register::RegChannelControl.spec_addr() as int],
        c0,
        c1,
        mode,
    );
}

/// The masked read-modify-write formula is idempotent: applying the same
/// `(mask, position, value)` update twice yields the byte of applying it
/// once.
pub proof fn lemma_masked_update_idempotent(current: u8, mask: u8, position: u8, value: u8)
    requires
        position < 8,
    ensures
        masked_update(masked_update(current, mask, position, value), mask, position, value)
            == masked_update(current, mask, position, value),
{
    assert(masked_update(masked_update(current, mask, position, value), mask, position, value)
        == masked_update(current, mask, position, value)) by (bit_vector);
}

/// Brightness writes are independent across channels: after `led_on` for
/// channel `c0`, every other channel's brightness register holds its prior
/// shadow byte.
pub proof fn lemma_brightness_writes_independent(
    s: Seq<u8>,
    c0: u8,
    c1: u8,
    mode: Ktd2026Mode,
    bright: u8,
)
    requires
        s.len() == KTD2026_NUM_REGISTERS,
        c0 < 4,
        c1 < 4,
        c0 != c1,
    ensures
        led_on_shadow(s, c0, mode, bright)[brightness_reg(c1)] == s[brightness_reg(c1)],
{
}

/// Boundary: applying the always-off mode clears the addressed channel's
/// 2-bit field to zero, whatever the field held before.
pub proof fn lemma_always_off_clears_field(ctrl: u8, channel: u8)
    requires
        channel < 4,
    ensures
        channel_mode_bits(apply_led_mode(ctrl, channel, Ktd2026Mode::LedAlwaysOff), channel)
            == 0,
{
    assert((((ctrl & !(0b11u8 << mode_shift(channel))) >> mode_shift(channel)) & 0b11u8)
        == 0) by (bit_vector)
        requires
            channel < 4,
    ;
}

impl<I2C: Transport> KTD2026<I2C> {
    /// Create a driver instance owning `i2c`. The shadow register store
    /// starts all-zero and every color is assigned channel 0; call
    /// [`Self::init`] to establish the real channel assignment before
    /// lighting operations.
    pub fn new(i2c: I2C, address: u8) -> (r: Self)
        ensures
            r.wf(),
            r.bus() == i2c,
            r.device_address() == address,
            r.shadow() == shadow_reset(),
            forall|i: int|
                0 <= i < MAX_LED_COUNT ==> (#[trigger] r.led_params()[i]).spec_channel() == 0
                    && r.led_params()[i].spec_brightness() == 0,
    {
        let param = Ktd2026LedParam { channel: 0, brightness: 0 };
        let r = KTD2026 {
            i2c,
            address,
            ktd2026_data: Ktd2026Data {
                leds: [param; MAX_LED_COUNT],
                shadow_register: [0u8; KTD2026_NUM_REGISTERS],
            },
        };
        proof {
            assert(r.shadow() =~= shadow_reset());
        }
        r
    }

    /// Tear the driver down, releasing the bus transport back to the caller.
    pub fn destroy(self) -> (r: I2C)
        ensures
            r == self.bus(),
    {
        self.i2c
    }
}

impl<I2C: Transport> KTD2026<I2C> {
    /// Record `value` as the authoritative byte for `reg_addr` in the shadow
    /// register store, without touching the device.
    pub fn update_shadow_memory(&mut self, reg_addr: Register, value: u8)
        ensures
            final(self).shadow() == old(self).shadow().update(
                reg_addr.spec_addr() as int,
                value,
            ),
            final(self).led_params() == old(self).led_params(),
            final(self).bus() == old(self).bus(),
            final(self).device_address() == old(self).device_address(),
    {
        let addr = reg_addr.addr() as usize;
        self.ktd2026_data.shadow_register[addr] = value;
    }

    /// Read the authoritative byte for `reg_addr` from the shadow register
    /// store. An address never written since initialization reads as zero.
    pub fn read_shadow_memory(&mut self, reg_addr: Register) -> (r: u8)
        ensures
            r == old(self).shadow()[reg_addr.spec_addr() as int],
            *final(self) == *old(self),
    {
        let addr = reg_addr.addr() as usize;
        self.ktd2026_data.shadow_register[addr]
    }

    /// Establish the channel assignment: `ch` gives the physical channel and
    /// `brightness` the initial brightness of red, green and blue, in that
    /// order. Resets the shadow register store to all-zero; issues no bus
    /// traffic.
    pub fn init(&mut self, ch: (u8, u8, u8), brightness: (u8, u8, u8))
        requires
            ch.0 < 4,
            ch.1 < 4,
            ch.2 < 4,
        ensures
            final(self).wf(),
            final(self).shadow() == shadow_reset(),
            final(self).led_channel(Ktd2026LED::LedR) == ch.0,
            final(self).led_channel(Ktd2026LED::LedG) == ch.1,
            final(self).led_channel(Ktd2026LED::LedB) == ch.2,
            final(self).led_params()[0].spec_brightness() == brightness.0,
            final(self).led_params()[1].spec_brightness() == brightness.1,
            final(self).led_params()[2].spec_brightness() == brightness.2,
            final(self).bus() == old(self).bus(),
            final(self).device_address() == old(self).device_address(),
    {
        let led_red = Ktd2026LedParam { channel: ch.0, brightness: brightness.0 };
        let led_green = Ktd2026LedParam { channel: ch.1, brightness: brightness.1 };
        let led_blue = Ktd2026LedParam { channel: ch.2, brightness: brightness.2 };
        self.ktd2026_data = Ktd2026Data {
            leds: [led_red, led_green, led_blue],
            shadow_register: [0u8; KTD2026_NUM_REGISTERS],
        };
        proof {
            assert(self.shadow() =~= shadow_reset());
        }
    }

    /// Physical channel assigned to a logical LED color.
    pub fn get_led_channel(&mut self, led: Ktd2026LED) -> (r: u8)
        ensures
            r == old(self).led_channel(led),
            *final(self) == *old(self),
    {
        let idx = led.index();
        self.ktd2026_data.leds[idx].channel
    }
}

impl<I2C: Transport> KTD2026<I2C> {
    /// Probe a register over the bus (write the register address, read one
    /// byte back). The chip's reads are unreliable, so nothing is promised
    /// of the returned byte and the driver never bases state on it.
    pub fn read_register(&mut self, reg: Register) -> (r: Result<u8, I2C::Error>)
        ensures
            final(self).shadow() == old(self).shadow(),
            final(self).led_params() == old(self).led_params(),
            final(self).device_address() == old(self).device_address(),
    {
        let mut data: [u8; 1] = [0x00u8; 1];
        self.i2c.write_read(self.address, &[reg.addr()], &mut data)?;
        Ok(data[0])
    }

    /// Send `data` to the device register `reg` over the bus, without
    /// touching the shadow register store.
    pub fn write_register(&mut self, reg: Register, data: u8) -> (r: Result<(), I2C::Error>)
        ensures
            final(self).shadow() == old(self).shadow(),
            final(self).led_params() == old(self).led_params(),
            final(self).device_address() == old(self).device_address(),
    {
        self.i2c.write(self.address, &[reg.addr(), data])?;
        Ok(())
    }

    /// Record `value` in the shadow register store, then write the recorded
    /// byte to the device. The shadow store reflects the intended value in
    /// every outcome: a transport failure is propagated without rolling the
    /// store back, a documented divergence risk of the design.
    pub fn update_device_memory(&mut self, reg_addr: Register, value: u8) -> (r: Result<
        (),
        I2C::Error,
    >)
        ensures
            final(self).shadow() == old(self).shadow().update(
                reg_addr.spec_addr() as int,
                value,
            ),
            final(self).led_params() == old(self).led_params(),
            final(self).device_address() == old(self).device_address(),
    {
        self.update_shadow_memory(reg_addr, value);
        let temp_value = self.read_shadow_memory(reg_addr);
        self.write_register(reg_addr, temp_value)?;
        Ok(())
    }

    /// Masked read-modify-write of one register: read the current byte from
    /// the shadow register store, replace the field selected by `mask` and
    /// `position` with `value`, and write the result through
    /// [`Self::update_device_memory`]. Bits outside `mask` are preserved
    /// exactly as last intended, whatever the device would read back.
    pub fn modify_register(&mut self, reg: Register, mask: u8, position: u8, value: u8) -> (r:
        Result<(), I2C::Error>)
        requires
            position < 8,
        ensures
            final(self).shadow() == old(self).shadow().update(
                reg.spec_addr() as int,
                masked_update(old(self).shadow()[reg.spec_addr() as int], mask, position, value),
            ),
            final(self).led_params() == old(self).led_params(),
            final(self).device_address() == old(self).device_address(),
    {
        let reg_data = self.read_shadow_memory(reg);
        let updated_value = (reg_data & !mask) | ((value << position) & mask);
        self.update_device_memory(reg, updated_value)?;
        Ok(())
    }
}

impl<I2C: Transport> KTD2026<I2C> {
    /// Set one LED's brightness and mode: write `bright` to the channel's
    /// dedicated brightness register, then set the channel's 2-bit field in
    /// the channel-control register to `mode`, preserving the other three
    /// channels' fields.
    ///
    /// The shadow store reflects each write as it is issued, so on a
    /// transport failure it holds either the brightness update alone (first
    /// write failed) or the full intended result (second write failed).
    pub fn led_on(&mut self, led: Ktd2026LED, mode: Ktd2026Mode, bright: u8) -> (r: Result<
        (),
        I2C::Error,
    >)
        requires
            old(self).wf(),
        ensures
            final(self).wf(),
            final(self).led_params() == old(self).led_params(),
            final(self).device_address() == old(self).device_address(),
            final(self).shadow()[brightness_reg(old(self).led_channel(led))] == bright,
            r is Ok ==> final(self).shadow() == led_on_shadow(
                old(self).shadow(),
                old(self).led_channel(led),
                mode,
                bright,
            ),
            r is Err ==> final(self).shadow() == old(self).shadow().update(
                brightness_reg(old(self).led_channel(led)),
                bright,
            ) || final(self).shadow() == led_on_shadow(
                old(self).shadow(),
                old(self).led_channel(led),
                mode,
                bright,
            ),
    {
        let led_channel_num = self.get_led_channel(led);

        let bright_ctrl_reg = Register::RegLED1CurrentOut.addr() + led_channel_num;

        if let Some(reg_addr) = Register::from_value(bright_ctrl_reg) {
            self.update_device_memory(reg_addr, bright)?;
        }

        let ctrl_reg_value = self.read_shadow_memory(Register::RegChannelControl);

        let shift: u8 = led_channel_num * 2;
        let led_mode = match mode {
            Ktd2026Mode::LedAlwaysOff => {
                // Build the 2-bit-wide field mask, shift it to this
                // channel's position, and clear exactly those bits.
                let field_mask: u8 = 0b11u8 << shift;
                ctrl_reg_value & !field_mask
            },
            _ => ctrl_reg_value | (mode.value() << shift),
        };

        self.update_device_memory(Register::RegChannelControl, led_mode)?;

        Ok(())
    }

    /// Select a time slot for control, or a reset behavior, in the low three
    /// bits of the enable/reset register, keeping the register's upper bits.
    pub fn timerslot_control(&mut self, t_slot: TCtrlResetModes) -> (r: Result<(), I2C::Error>)
        ensures
            final(self).wf() == old(self).wf(),
            final(self).led_params() == old(self).led_params(),
            final(self).device_address() == old(self).device_address(),
            final(self).shadow() == old(self).shadow().update(
                Register::RegEnableReset.spec_addr() as int,
                (old(self).shadow()[Register::RegEnableReset.spec_addr() as int]
                    & MASK_TIMER_SLOT_CONTROL) | t_slot.spec_value(),
            ),
    {
        let t_slot_reg_value = self.read_shadow_memory(Register::RegEnableReset);

        // Clear the existing time-slot control setting, then set the new one.
        let cleared = t_slot_reg_value & MASK_TIMER_SLOT_CONTROL;
        let updated = cleared | t_slot.value();

        self.update_device_memory(Register::RegEnableReset, updated)?;

        Ok(())
    }

    /// Set the global flash period multiplier. The hardware period is
    /// multiplier * 0.128s + 0.256s, except that multiplier 0 yields 0.128s:
    /// a non-linearity of the chip at the boundary, not a choice of this
    /// driver.
    pub fn set_period(&mut self, period_multiplier: u8) -> (r: Result<(), I2C::Error>)
        ensures
            final(self).wf() == old(self).wf(),
            final(self).led_params() == old(self).led_params(),
            final(self).device_address() == old(self).device_address(),
            final(self).shadow() == old(self).shadow().update(
                Register::RegFlashPeriod.spec_addr() as int,
                period_multiplier,
            ),
            final(self).shadow()[Register::RegFlashPeriod.spec_addr() as int]
                == period_multiplier,
    {
        self.update_device_memory(Register::RegFlashPeriod, period_multiplier)?;
        Ok(())
    }

    /// Set one PWM timer's duty multiplier in its flash-on-time register.
    /// The duty is multiplier * 0.4% of the flash period.
    pub fn set_pwm_duty(&mut self, pwm_channel: Ktd2026Pwm, pwm_duty_multiplier: u8) -> (r:
        Result<(), I2C::Error>)
        ensures
            final(self).wf() == old(self).wf(),
            final(self).led_params() == old(self).led_params(),
            final(self).device_address() == old(self).device_address(),
            final(self).shadow() == old(self).shadow().update(
                Register::RegFlashOnTime1.spec_addr() + pwm_channel.spec_value() as int,
                pwm_duty_multiplier,
            ),
    {
        let pwm_duty_reg = Register::RegFlashOnTime1.addr() + pwm_channel.value();

        if let Some(reg_addr) = Register::from_value(pwm_duty_reg) {
            self.update_device_memory(reg_addr, pwm_duty_multiplier)?;
        }

        Ok(())
    }
}

} // verus!
