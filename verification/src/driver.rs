//! The PCF8523 driver: every device operation, each specified by the exact
//! sequence of register transactions it appends to the bus history and the
//! value it computes from what came back.

use vstd::prelude::*;
use crate::bits::{
    decode_bcd, get_bits, set_bits, spec_decode_bcd, spec_encode_bcd, spec_get_bits, spec_set_bits,
};
use crate::bus::{BusTxn, I2cBus};
use crate::datetime::DateTime;
use crate::typedefs::{Hours, Meridiem, Pcf8523Error, Pcf8523Interrupt, PowerManagement};
use crate::registers::{
    PCF8523_CONTROL_1, PCF8523_CONTROL_2, PCF8523_CONTROL_3, PCF8523_SECONDS, PCF8523_MINUTES,
    PCF8523_HOURS, PCF8523_DAYS, PCF8523_WEEKDAYS, PCF8523_MONTHS, PCF8523_YEARS,
};

verus! {

/// The chip's 7-bit slave address.
pub const PCF8523_I2C_ADDRESS: u8 = 0x68;

/// The transaction a register read performs: the register index is
/// transmitted and one byte is received.
pub open spec fn read_txn(reg: u8, value: u8) -> BusTxn {
    BusTxn::WriteRead {
        addr: PCF8523_I2C_ADDRESS,
        sent: seq![reg],
        received: seq![value],
    }
}

/// The transaction a register write performs: the register index and the new
/// byte are transmitted together.
pub open spec fn write_txn(reg: u8, value: u8) -> BusTxn {
    BusTxn::Write { addr: PCF8523_I2C_ADDRESS, sent: seq![reg, value] }
}

/// The bus history grew by exactly one read of `reg` that returned `value`.
pub open spec fn read_step(pre: Seq<BusTxn>, post: Seq<BusTxn>, reg: u8, value: u8) -> bool {
    post == pre.push(read_txn(reg, value))
}

/// The bus history grew by exactly one write of `value` to `reg`.
pub open spec fn write_step(pre: Seq<BusTxn>, post: Seq<BusTxn>, reg: u8, value: u8) -> bool {
    post == pre.push(write_txn(reg, value))
}

/// The read-modify-write discipline on one register: the history grew by
/// exactly one read of `reg` and then one write back to the same register of
/// the value read, with only the `mask` field replaced by `data`.
pub open spec fn rmw_step(
    pre: Seq<BusTxn>,
    post: Seq<BusTxn>,
    reg: u8,
    data: u8,
    lsb_offset: u8,
    mask: u8,
) -> bool {
    exists|v: u8|
        post == pre.push(read_txn(reg, v)).push(
            write_txn(reg, spec_set_bits(v, data, lsb_offset, mask)),
        )
}

/// A read-modify-write that stopped at a bus error: either nothing was
/// appended, or the read of `reg` succeeded and no write followed.
pub open spec fn aborted_rmw(pre: Seq<BusTxn>, post: Seq<BusTxn>, reg: u8) -> bool {
    post == pre || exists|v: u8| #[trigger] read_step(pre, post, reg, v)
}

/// The flag binding of each interrupt kind: the register, the bit offset of
/// the flag, and the aligned one-bit mask. `None` for the watchdog, whose
/// flag the chip clears on the read itself.
///
/// The battery switch-over entry targets CONTROL_3 bit 2 — the driver's
/// established on-wire behaviour, which the tests pin down — although the
/// datasheet places the BSF flag at bit 3 (bit 2 is the battery-low flag).
pub open spec fn spec_flag_location(k: Pcf8523Interrupt) -> Option<(u8, u8, u8)> {
    match k {
        Pcf8523Interrupt::Alarm => Some((PCF8523_CONTROL_2, 3u8, 0b1000u8)),
        Pcf8523Interrupt::BatterySwitchOver => Some((PCF8523_CONTROL_3, 2u8, 0b100u8)),
        Pcf8523Interrupt::CountdownTimerA => Some((PCF8523_CONTROL_2, 6u8, 0b100_0000u8)),
        Pcf8523Interrupt::CountdownTimerB => Some((PCF8523_CONTROL_2, 5u8, 0b10_0000u8)),
        Pcf8523Interrupt::Second => Some((PCF8523_CONTROL_2, 4u8, 0b1_0000u8)),
        Pcf8523Interrupt::WatchdogTimerA => None,
    }
}

/// The two reads an hours query performs: CONTROL_1 for the mode bit, then
/// the HOURS register.
pub open spec fn hours_read_txns(ctrl: u8, hreg: u8) -> Seq<BusTxn> {
    seq![read_txn(PCF8523_CONTROL_1, ctrl), read_txn(PCF8523_HOURS, hreg)]
}

/// The hours value the two bytes stand for. With CONTROL_1 bit 3 clear the
/// chip is in 24-hour mode and HOURS bits 5..0 carry BCD hours 0 to 23; with
/// it set the chip is in 12-hour mode, bits 4..0 carry BCD hours 1 to 12 and
/// bit 5 is the meridiem (0 = AM, 1 = PM).
pub open spec fn spec_hours_value(ctrl: u8, hreg: u8) -> Hours {
    if spec_get_bits(ctrl, 1, 3) == 0 {
        Hours { hours: spec_decode_bcd(hreg & 0b11_1111), meridiem: None }
    } else {
        Hours {
            hours: spec_decode_bcd(hreg & 0b1_1111),
            meridiem: if spec_get_bits(hreg, 1, 5) == 1 {
                Some(Meridiem::PM)
            } else {
                Some(Meridiem::AM)
            },
        }
    }
}

/// The registers a batch calendar read visits, in order.
pub open spec fn calendar_regs() -> Seq<u8> {
    seq![
        PCF8523_SECONDS,
        PCF8523_MINUTES,
        PCF8523_HOURS,
        PCF8523_DAYS,
        PCF8523_WEEKDAYS,
        PCF8523_MONTHS,
        PCF8523_YEARS,
    ]
}

/// The reads a batch calendar read performs when the registers return `vals`,
/// one read per calendar register in order.
pub open spec fn calendar_read_txns(vals: Seq<u8>) -> Seq<BusTxn>
    recommends
        vals.len() <= 7,
{
    Seq::new(vals.len(), |i: int| read_txn(calendar_regs()[i], vals[i]))
}

/// The date-time assembled from the seven calendar register bytes: each field
/// is masked to its documented bits and BCD decoded. Hours are taken in
/// 24-hour form.
pub open spec fn spec_datetime_from(vals: Seq<u8>) -> DateTime
    recommends
        vals.len() == 7,
{
    DateTime {
        seconds: spec_decode_bcd(vals[0] & 0b111_1111),
        minutes: spec_decode_bcd(vals[1] & 0b111_1111),
        hours: spec_decode_bcd(vals[2] & 0b11_1111),
        day: spec_decode_bcd(vals[3] & 0b11_1111),
        day_of_week: spec_decode_bcd(vals[4] & 0b111),
        month: spec_decode_bcd(vals[5] & 0b1_1111),
        year: spec_decode_bcd(vals[6]),
    }
}

/// The writes a batch calendar write performs: each field of `dt` BCD encoded
/// and written to its register, in register order.
pub open spec fn calendar_write_txns(dt: DateTime) -> Seq<BusTxn>
    recommends
        dt.wf(),
{
    seq![
        write_txn(PCF8523_SECONDS, spec_encode_bcd(dt.seconds)),
        write_txn(PCF8523_MINUTES, spec_encode_bcd(dt.minutes)),
        write_txn(PCF8523_HOURS, spec_encode_bcd(dt.hours)),
        write_txn(PCF8523_DAYS, spec_encode_bcd(dt.day)),
        write_txn(PCF8523_WEEKDAYS, spec_encode_bcd(dt.day_of_week)),
        write_txn(PCF8523_MONTHS, spec_encode_bcd(dt.month)),
        write_txn(PCF8523_YEARS, spec_encode_bcd(dt.year)),
    ]
}

/// The enable binding of each interrupt kind: the register holding its enable
/// bit, and that bit's offset.
pub open spec fn spec_enable_location(k: Pcf8523Interrupt) -> (u8, u8) {
    match k {
        Pcf8523Interrupt::Alarm => (PCF8523_CONTROL_1, 1u8),
        Pcf8523Interrupt::BatterySwitchOver => (PCF8523_CONTROL_3, 1u8),
        Pcf8523Interrupt::CountdownTimerA => (PCF8523_CONTROL_2, 1u8),
        Pcf8523Interrupt::CountdownTimerB => (PCF8523_CONTROL_2, 0u8),
        Pcf8523Interrupt::Second => (PCF8523_CONTROL_1, 2u8),
        Pcf8523Interrupt::WatchdogTimerA => (PCF8523_CONTROL_2, 2u8),
    }
}

/// The driver. It owns its bus handle exclusively and holds no state of its
/// own between calls; the chip holds all state.
pub struct Pcf8523<B> {
    bus: B,
}

impl<B: I2cBus> Pcf8523<B> {
    /// The transactions this driver has issued on its bus, oldest first.
    pub closed spec fn history(&self) -> Seq<BusTxn> {
        self.bus.history()
    }

    pub fn new(bus: B) -> (d: Self)
        ensures
            d.history() == bus.history(),
    {
        Self { bus }
    }

    /// Hand the bus handle back to the caller.
    pub fn release(self) -> (b: B)
        ensures
            b.history() == self.history(),
    {
        self.bus
    }

    /// Read one register: a single write-read transaction of the register
    /// index against one received byte.
    pub fn read_reg(&mut self, reg: u8) -> (r: Result<u8, Pcf8523Error<B::Error>>)
        ensures
            match r {
                Ok(v) => read_step(old(self).history(), final(self).history(), reg, v),
                Err(_) => final(self).history() == old(self).history(),
            },
    {
        let mut buffer = [0u8; 1];
        match self.bus.write_read(PCF8523_I2C_ADDRESS, &[reg], &mut buffer) {
            Ok(()) => {
                let v = buffer[0];
                proof {
                    assert(buffer@ =~= seq![v]);
                    assert(([reg])@ =~= seq![reg]);
                }
                Ok(v)
            },
            Err(e) => Err(Pcf8523Error::I2C(e)),
        }
    }

    /// Write one register: a single write transaction of the register index
    /// followed by the new byte.
    pub fn write_reg(&mut self, reg: u8, val: u8) -> (r: Result<(), Pcf8523Error<B::Error>>)
        ensures
            match r {
                Ok(()) => write_step(old(self).history(), final(self).history(), reg, val),
                Err(_) => final(self).history() == old(self).history(),
            },
    {
        match self.bus.write(PCF8523_I2C_ADDRESS, &[reg, val]) {
            Ok(()) => {
                proof {
                    assert(([reg, val])@ =~= seq![reg, val]);
                }
                Ok(())
            },
            Err(e) => Err(Pcf8523Error::I2C(e)),
        }
    }

    /// Replace the `mask` field of `reg` by `data` under the read-modify-write
    /// discipline: read, clear only the target bits, write back. Bits outside
    /// the mask are written back byte-identical; a failed read aborts the
    /// operation with no write.
    fn update_reg(&mut self, reg: u8, data: u8, lsb_offset: u8, mask: u8) -> (r: Result<
        (),
        Pcf8523Error<B::Error>,
    >)
        requires
            lsb_offset < 8,
        ensures
            match r {
                Ok(()) => rmw_step(
                    old(self).history(),
                    final(self).history(),
                    reg,
                    data,
                    lsb_offset,
                    mask,
                ),
                Err(_) => aborted_rmw(old(self).history(), final(self).history(), reg),
            },
    {
        let mut val = match self.read_reg(reg) {
            Ok(v) => v,
            Err(e) => return Err(e),
        };
        let ghost v0 = val;
        set_bits(&mut val, data, lsb_offset, mask);
        match self.write_reg(reg, val) {
            Ok(()) => {
                proof {
                    assert(final(self).history() == old(self).history().push(
                        read_txn(reg, v0),
                    ).push(write_txn(reg, spec_set_bits(v0, data, lsb_offset, mask))));
                }
                Ok(())
            },
            Err(e) => {
                proof {
                    assert(read_step(old(self).history(), final(self).history(), reg, v0));
                }
                Err(e)
            },
        }
    }

    /// Clear the flag of `interrupt` by writing 0 to its flag bit under the
    /// read-modify-write discipline; the watchdog flag is acknowledged by the
    /// read alone, with no write.
    pub fn clear_interrupt(&mut self, interrupt: Pcf8523Interrupt) -> (r: Result<
        (),
        Pcf8523Error<B::Error>,
    >)
        ensures
            r is Ok ==> match spec_flag_location(interrupt) {
                Some(loc) => rmw_step(
                    old(self).history(),
                    final(self).history(),
                    loc.0,
                    0,
                    loc.1,
                    loc.2,
                ),
                None => exists|v: u8|
                    #[trigger] read_step(
                        old(self).history(),
                        final(self).history(),
                        PCF8523_CONTROL_2,
                        v,
                    ),
            },
            r is Err ==> match spec_flag_location(interrupt) {
                Some(loc) => aborted_rmw(old(self).history(), final(self).history(), loc.0),
                None => final(self).history() == old(self).history(),
            },
    {
        match interrupt {
            Pcf8523Interrupt::Alarm => self.clear_alarm_interrupt(),
            Pcf8523Interrupt::BatterySwitchOver => self.clear_bsf_interrupt(),
            Pcf8523Interrupt::CountdownTimerA => self.clear_countdown_timer_a_interrupt(),
            Pcf8523Interrupt::CountdownTimerB => self.clear_countdown_timer_b_interrupt(),
            Pcf8523Interrupt::Second => self.clear_second_interrupt(),
            Pcf8523Interrupt::WatchdogTimerA => self.clear_watchdog_timer_a_interrupt(),
        }
    }

    fn clear_alarm_interrupt(&mut self) -> (r: Result<(), Pcf8523Error<B::Error>>)
        ensures
            r is Ok ==> rmw_step(
                old(self).history(),
                final(self).history(),
                PCF8523_CONTROL_2,
                0,
                3,
                0b1000,
            ),
            r is Err ==> aborted_rmw(old(self).history(), final(self).history(), PCF8523_CONTROL_2),
    {
        self.update_reg(PCF8523_CONTROL_2, 0, 3, 0b1000)
    }

    fn clear_bsf_interrupt(&mut self) -> (r: Result<(), Pcf8523Error<B::Error>>)
        ensures
            r is Ok ==> rmw_step(
                old(self).history(),
                final(self).history(),
                PCF8523_CONTROL_3,
                0,
                2,
                0b100,
            ),
            r is Err ==> aborted_rmw(old(self).history(), final(self).history(), PCF8523_CONTROL_3),
    {
        self.update_reg(PCF8523_CONTROL_3, 0, 2, 0b100)
    }

    fn clear_countdown_timer_a_interrupt(&mut self) -> (r: Result<(), Pcf8523Error<B::Error>>)
        ensures
            r is Ok ==> rmw_step(
                old(self).history(),
                final(self).history(),
                PCF8523_CONTROL_2,
                0,
                6,
                0b100_0000,
            ),
            r is Err ==> aborted_rmw(old(self).history(), final(self).history(), PCF8523_CONTROL_2),
    {
        self.update_reg(PCF8523_CONTROL_2, 0, 6, 0b100_0000)
    }

    fn clear_countdown_timer_b_interrupt(&mut self) -> (r: Result<(), Pcf8523Error<B::Error>>)
        ensures
            r is Ok ==> rmw_step(
                old(self).history(),
                final(self).history(),
                PCF8523_CONTROL_2,
                0,
                5,
                0b10_0000,
            ),
            r is Err ==> aborted_rmw(old(self).history(), final(self).history(), PCF8523_CONTROL_2),
    {
        self.update_reg(PCF8523_CONTROL_2, 0, 5, 0b10_0000)
    }

    fn clear_second_interrupt(&mut self) -> (r: Result<(), Pcf8523Error<B::Error>>)
        ensures
            r is Ok ==> rmw_step(
                old(self).history(),
                final(self).history(),
                PCF8523_CONTROL_2,
                0,
                4,
                0b1_0000,
            ),
            r is Err ==> aborted_rmw(old(self).history(), final(self).history(), PCF8523_CONTROL_2),
    {
        self.update_reg(PCF8523_CONTROL_2, 0, 4, 0b1_0000)
    }

    fn clear_watchdog_timer_a_interrupt(&mut self) -> (r: Result<(), Pcf8523Error<B::Error>>)
        ensures
            r is Ok ==> exists|v: u8|
                #[trigger] read_step(
                    old(self).history(),
                    final(self).history(),
                    PCF8523_CONTROL_2,
                    v,
                ),
            r is Err ==> final(self).history() == old(self).history(),
    {
        match self.read_reg(PCF8523_CONTROL_2) {
            Ok(_) => Ok(()),
            Err(e) => Err(e),
        }
    }

    /// Whether the enable bit of `interrupt` is set; reads exactly the one
    /// register that holds that bit.
    pub fn get_interrupt_enabled(&mut self, interrupt: Pcf8523Interrupt) -> (r: Result<
        bool,
        Pcf8523Error<B::Error>,
    >)
        ensures
            match r {
                Ok(enabled) => exists|v: u8|
                    #[trigger] read_step(
                        old(self).history(),
                        final(self).history(),
                        spec_enable_location(interrupt).0,
                        v,
                    ) && enabled == (spec_get_bits(v, 1, spec_enable_location(interrupt).1) == 1),
                Err(_) => final(self).history() == old(self).history(),
            },
    {
        let (reg, bit): (u8, u8) = match interrupt {
            Pcf8523Interrupt::Alarm => (PCF8523_CONTROL_1, 1),
            Pcf8523Interrupt::BatterySwitchOver => (PCF8523_CONTROL_3, 1),
            Pcf8523Interrupt::CountdownTimerA => (PCF8523_CONTROL_2, 1),
            Pcf8523Interrupt::CountdownTimerB => (PCF8523_CONTROL_2, 0),
            Pcf8523Interrupt::Second => (PCF8523_CONTROL_1, 2),
            Pcf8523Interrupt::WatchdogTimerA => (PCF8523_CONTROL_2, 2),
        };
        let v = match self.read_reg(reg) {
            Ok(v) => v,
            Err(e) => return Err(e),
        };
        proof {
            assert(read_step(
                old(self).history(),
                self.history(),
                spec_enable_location(interrupt).0,
                v,
            ));
        }
        Ok(get_bits(v, 1, bit) == 1)
    }

    /// Set or clear the STOP bit (CONTROL_1 bit 5); while set, the chip's
    /// time circuits are frozen. The written bit equals the argument.
    pub fn freeze_rtc_time_circuits(&mut self, freeze: bool) -> (r: Result<
        (),
        Pcf8523Error<B::Error>,
    >)
        ensures
            r is Ok ==> rmw_step(
                old(self).history(),
                final(self).history(),
                PCF8523_CONTROL_1,
                if freeze { 1u8 } else { 0u8 },
                5,
                0b10_0000,
            ),
            r is Err ==> aborted_rmw(old(self).history(), final(self).history(), PCF8523_CONTROL_1),
    {
        self.update_reg(PCF8523_CONTROL_1, if freeze { 1 } else { 0 }, 5, 0b10_0000)
    }

    /// Select 12-hour (`true`) or 24-hour (`false`) mode: CONTROL_1 bit 3.
    pub fn select_hour_mode(&mut self, mode_12hr: bool) -> (r: Result<(), Pcf8523Error<B::Error>>)
        ensures
            r is Ok ==> rmw_step(
                old(self).history(),
                final(self).history(),
                PCF8523_CONTROL_1,
                if mode_12hr { 1u8 } else { 0u8 },
                3,
                0b1000,
            ),
            r is Err ==> aborted_rmw(old(self).history(), final(self).history(), PCF8523_CONTROL_1),
    {
        self.update_reg(PCF8523_CONTROL_1, if mode_12hr { 1 } else { 0 }, 3, 0b1000)
    }

    /// Select the 12.5 pF (`true`) or 7 pF (`false`) oscillator load
    /// capacitance: CONTROL_1 bit 7.
    pub fn select_oscillator_capacitor(&mut self, cap12_5pf: bool) -> (r: Result<
        (),
        Pcf8523Error<B::Error>,
    >)
        ensures
            r is Ok ==> rmw_step(
                old(self).history(),
                final(self).history(),
                PCF8523_CONTROL_1,
                if cap12_5pf { 1u8 } else { 0u8 },
                7,
                0b1000_0000,
            ),
            r is Err ==> aborted_rmw(old(self).history(), final(self).history(), PCF8523_CONTROL_1),
    {
        self.update_reg(PCF8523_CONTROL_1, if cap12_5pf { 1 } else { 0 }, 7, 0b1000_0000)
    }

    /// Store the 3-bit battery switch-over / low-voltage-detection code in
    /// CONTROL_3 bits 7..5.
    pub fn select_power_management(&mut self, power_management: PowerManagement) -> (r: Result<
        (),
        Pcf8523Error<B::Error>,
    >)
        ensures
            r is Ok ==> rmw_step(
                old(self).history(),
                final(self).history(),
                PCF8523_CONTROL_3,
                power_management.spec_code(),
                5,
                0b1110_0000,
            ),
            r is Err ==> aborted_rmw(old(self).history(), final(self).history(), PCF8523_CONTROL_3),
    {
        let code = power_management.code();
        self.update_reg(PCF8523_CONTROL_3, code, 5, 0b1110_0000)
    }

    /// Issue the datasheet's software-reset pattern: a single write of
    /// 0b0101_1000 to CONTROL_1, with no preceding read.
    pub fn software_reset(&mut self) -> (r: Result<(), Pcf8523Error<B::Error>>)
        ensures
            r is Ok ==> write_step(
                old(self).history(),
                final(self).history(),
                PCF8523_CONTROL_1,
                0b0101_1000,
            ),
            r is Err ==> final(self).history() == old(self).history(),
    {
        self.write_reg(PCF8523_CONTROL_1, 0b0101_1000)
    }

    /// Whether the battery-low bit (CONTROL_3 bit 2) is set.
    pub fn get_battery_status(&mut self) -> (r: Result<bool, Pcf8523Error<B::Error>>)
        ensures
            match r {
                Ok(low) => exists|v: u8|
                    #[trigger] read_step(
                        old(self).history(),
                        final(self).history(),
                        PCF8523_CONTROL_3,
                        v,
                    ) && low == (spec_get_bits(v, 1, 2) == 1),
                Err(_) => final(self).history() == old(self).history(),
            },
    {
        let v = match self.read_reg(PCF8523_CONTROL_3) {
            Ok(v) => v,
            Err(e) => return Err(e),
        };
        Ok(get_bits(v, 1, 2) == 1)
    }

    /// Whether clock integrity is guaranteed: true iff the oscillator-stop
    /// flag (SECONDS bit 7) is clear.
    pub fn get_clock_integrity_guaranteed(&mut self) -> (r: Result<bool, Pcf8523Error<B::Error>>)
        ensures
            match r {
                Ok(guaranteed) => exists|v: u8|
                    #[trigger] read_step(
                        old(self).history(),
                        final(self).history(),
                        PCF8523_SECONDS,
                        v,
                    ) && guaranteed == (spec_get_bits(v, 1, 7) == 0),
                Err(_) => final(self).history() == old(self).history(),
            },
    {
        let v = match self.read_reg(PCF8523_SECONDS) {
            Ok(v) => v,
            Err(e) => return Err(e),
        };
        Ok(get_bits(v, 1, 7) == 0)
    }

    /// Whether the correction-interrupt-generated bit (CONTROL_1 bit 0) is
    /// set.
    pub fn get_correction_interrupt_generated(&mut self) -> (r: Result<
        bool,
        Pcf8523Error<B::Error>,
    >)
        ensures
            match r {
                Ok(generated) => exists|v: u8|
                    #[trigger] read_step(
                        old(self).history(),
                        final(self).history(),
                        PCF8523_CONTROL_1,
                        v,
                    ) && generated == (spec_get_bits(v, 1, 0) == 1),
                Err(_) => final(self).history() == old(self).history(),
            },
    {
        let v = match self.read_reg(PCF8523_CONTROL_1) {
            Ok(v) => v,
            Err(e) => return Err(e),
        };
        Ok(get_bits(v, 1, 0) == 1)
    }

    /// The seconds field: one read of SECONDS, reserved bit masked off, BCD
    /// decoded.
    pub fn get_seconds(&mut self) -> (r: Result<u8, Pcf8523Error<B::Error>>)
        ensures
            match r {
                Ok(s) => exists|v: u8|
                    #[trigger] read_step(
                        old(self).history(),
                        final(self).history(),
                        PCF8523_SECONDS,
                        v,
                    ) && s == spec_decode_bcd(v & 0b111_1111),
                Err(_) => final(self).history() == old(self).history(),
            },
    {
        let v = match self.read_reg(PCF8523_SECONDS) {
            Ok(v) => v,
            Err(e) => return Err(e),
        };
        Ok(decode_bcd(v & 0b111_1111))
    }

    /// The minutes field: one read of MINUTES, reserved bit masked off, BCD
    /// decoded.
    pub fn get_minutes(&mut self) -> (r: Result<u8, Pcf8523Error<B::Error>>)
        ensures
            match r {
                Ok(m) => exists|v: u8|
                    #[trigger] read_step(
                        old(self).history(),
                        final(self).history(),
                        PCF8523_MINUTES,
                        v,
                    ) && m == spec_decode_bcd(v & 0b111_1111),
                Err(_) => final(self).history() == old(self).history(),
            },
    {
        let v = match self.read_reg(PCF8523_MINUTES) {
            Ok(v) => v,
            Err(e) => return Err(e),
        };
        Ok(decode_bcd(v & 0b111_1111))
    }

    /// The day-of-month field: one read of DAYS, reserved bits masked off,
    /// BCD decoded.
    pub fn get_day_of_month(&mut self) -> (r: Result<u8, Pcf8523Error<B::Error>>)
        ensures
            match r {
                Ok(d) => exists|v: u8|
                    #[trigger] read_step(
                        old(self).history(),
                        final(self).history(),
                        PCF8523_DAYS,
                        v,
                    ) && d == spec_decode_bcd(v & 0b11_1111),
                Err(_) => final(self).history() == old(self).history(),
            },
    {
        let v = match self.read_reg(PCF8523_DAYS) {
            Ok(v) => v,
            Err(e) => return Err(e),
        };
        Ok(decode_bcd(v & 0b11_1111))
    }

    /// The day-of-week field: one read of WEEKDAYS, reserved bits masked off,
    /// BCD decoded (the identity on the chip's 0 to 6 range).
    pub fn get_day_of_week(&mut self) -> (r: Result<u8, Pcf8523Error<B::Error>>)
        ensures
            match r {
                Ok(d) => exists|v: u8|
                    #[trigger] read_step(
                        old(self).history(),
                        final(self).history(),
                        PCF8523_WEEKDAYS,
                        v,
                    ) && d == spec_decode_bcd(v & 0b111),
                Err(_) => final(self).history() == old(self).history(),
            },
    {
        let v = match self.read_reg(PCF8523_WEEKDAYS) {
            Ok(v) => v,
            Err(e) => return Err(e),
        };
        Ok(decode_bcd(v & 0b111))
    }

    /// The month field: one read of MONTHS, reserved bits masked off, BCD
    /// decoded.
    pub fn get_month(&mut self) -> (r: Result<u8, Pcf8523Error<B::Error>>)
        ensures
            match r {
                Ok(m) => exists|v: u8|
                    #[trigger] read_step(
                        old(self).history(),
                        final(self).history(),
                        PCF8523_MONTHS,
                        v,
                    ) && m == spec_decode_bcd(v & 0b1_1111),
                Err(_) => final(self).history() == old(self).history(),
            },
    {
        let v = match self.read_reg(PCF8523_MONTHS) {
            Ok(v) => v,
            Err(e) => return Err(e),
        };
        Ok(decode_bcd(v & 0b1_1111))
    }

    /// The year field: one read of YEARS, all eight bits BCD decoded.
    pub fn get_year(&mut self) -> (r: Result<u8, Pcf8523Error<B::Error>>)
        ensures
            match r {
                Ok(y) => exists|v: u8|
                    #[trigger] read_step(
                        old(self).history(),
                        final(self).history(),
                        PCF8523_YEARS,
                        v,
                    ) && y == spec_decode_bcd(v),
                Err(_) => final(self).history() == old(self).history(),
            },
    {
        let v = match self.read_reg(PCF8523_YEARS) {
            Ok(v) => v,
            Err(e) => return Err(e),
        };
        proof {
            assert(v & 0b1111_1111 == v) by (bit_vector);
        }
        Ok(decode_bcd(v & 0b1111_1111))
    }

    /// The hours reading, in whichever mode the chip is in: one read of
    /// CONTROL_1 for the mode bit, then one read of HOURS.
    pub fn get_hours(&mut self) -> (r: Result<Hours, Pcf8523Error<B::Error>>)
        ensures
            match r {
                Ok(h) => exists|ctrl: u8, hreg: u8|
                    final(self).history() == old(self).history()
                        + #[trigger] hours_read_txns(ctrl, hreg) && h == spec_hours_value(
                        ctrl,
                        hreg,
                    ),
                Err(_) => final(self).history() == old(self).history() || exists|ctrl: u8|
                    #[trigger] read_step(
                        old(self).history(),
                        final(self).history(),
                        PCF8523_CONTROL_1,
                        ctrl,
                    ),
            },
    {
        let ghost h0 = self.history();
        let ctrl = match self.read_reg(PCF8523_CONTROL_1) {
            Ok(v) => v,
            Err(e) => return Err(e),
        };
        let hreg = match self.read_reg(PCF8523_HOURS) {
            Ok(v) => v,
            Err(e) => return Err(e),
        };
        proof {
            assert(self.history() =~= h0 + hours_read_txns(ctrl, hreg));
        }
        if get_bits(ctrl, 1, 3) == 0 {
            Ok(Hours::new(decode_bcd(hreg & 0b11_1111), None))
        } else {
            let meridiem = if get_bits(hreg, 1, 5) == 1 {
                Some(Meridiem::PM)
            } else {
                Some(Meridiem::AM)
            };
            Ok(Hours::new(decode_bcd(hreg & 0b1_1111), meridiem))
        }
    }

    /// The whole calendar: seven discrete reads of SECONDS through YEARS in
    /// register order, each field masked and BCD decoded. Hours are taken in
    /// 24-hour form; see `get_hours` for the mode-aware reading.
    pub fn get_datetime(&mut self) -> (r: Result<DateTime, Pcf8523Error<B::Error>>)
        ensures
            match r {
                Ok(dt) => exists|vals: Seq<u8>|
                    vals.len() == 7 && final(self).history() == old(self).history()
                        + #[trigger] calendar_read_txns(vals) && dt == spec_datetime_from(vals),
                Err(_) => exists|vals: Seq<u8>|
                    vals.len() < 7 && final(self).history() == old(self).history()
                        + #[trigger] calendar_read_txns(vals),
            },
    {
        let ghost h0 = self.history();
        let v0 = match self.read_reg(PCF8523_SECONDS) {
            Ok(v) => v,
            Err(e) => {
                proof {
                    assert(self.history() =~= h0 + calendar_read_txns(Seq::<u8>::empty()));
                }
                return Err(e);
            },
        };
        let v1 = match self.read_reg(PCF8523_MINUTES) {
            Ok(v) => v,
            Err(e) => {
                proof {
                    assert(self.history() =~= h0 + calendar_read_txns(seq![v0]));
                }
                return Err(e);
            },
        };
        let v2 = match self.read_reg(PCF8523_HOURS) {
            Ok(v) => v,
            Err(e) => {
                proof {
                    assert(self.history() =~= h0 + calendar_read_txns(seq![v0, v1]));
                }
                return Err(e);
            },
        };
        let v3 = match self.read_reg(PCF8523_DAYS) {
            Ok(v) => v,
            Err(e) => {
                proof {
                    assert(self.history() =~= h0 + calendar_read_txns(seq![v0, v1, v2]));
                }
                return Err(e);
            },
        };
        let v4 = match self.read_reg(PCF8523_WEEKDAYS) {
            Ok(v) => v,
            Err(e) => {
                proof {
                    assert(self.history() =~= h0 + calendar_read_txns(seq![v0, v1, v2, v3]));
                }
                return Err(e);
            },
        };
        let v5 = match self.read_reg(PCF8523_MONTHS) {
            Ok(v) => v,
            Err(e) => {
                proof {
                    assert(self.history() =~= h0 + calendar_read_txns(seq![v0, v1, v2, v3, v4]));
                }
                return Err(e);
            },
        };
        let v6 = match self.read_reg(PCF8523_YEARS) {
            Ok(v) => v,
            Err(e) => {
                proof {
                    assert(self.history() =~= h0 + calendar_read_txns(
                        seq![v0, v1, v2, v3, v4, v5],
                    ));
                }
                return Err(e);
            },
        };
        proof {
            assert(self.history() =~= h0 + calendar_read_txns(seq![v0, v1, v2, v3, v4, v5, v6]));
        }
        Ok(
            DateTime {
                seconds: decode_bcd(v0 & 0b111_1111),
                minutes: decode_bcd(v1 & 0b111_1111),
                hours: decode_bcd(v2 & 0b11_1111),
                day: decode_bcd(v3 & 0b11_1111),
                day_of_week: decode_bcd(v4 & 0b111),
                month: decode_bcd(v5 & 0b1_1111),
                year: decode_bcd(v6),
            },
        )
    }

    /// Write the whole calendar: each field of a validated date-time BCD
    /// encoded and written to its register, SECONDS through YEARS in order.
    /// Hours are written in 24-hour form regardless of the chip's mode bit;
    /// put the chip in 24-hour mode (`select_hour_mode(false)`) first. A bus
    /// error stops the sequence at the first failed write.
    pub fn set_datetime(&mut self, datetime: DateTime) -> (r: Result<(), Pcf8523Error<B::Error>>)
        requires
            datetime.wf(),
        ensures
            r is Ok ==> final(self).history() == old(self).history() + calendar_write_txns(
                datetime,
            ),
            r is Err ==> exists|k: int|
                0 <= k < 7 && final(self).history() == old(self).history()
                    + #[trigger] calendar_write_txns(datetime).take(k),
    {
        let ghost h0 = self.history();
        let enc = datetime.encode();
        match self.write_reg(PCF8523_SECONDS, enc.seconds) {
            Ok(()) => (),
            Err(e) => {
                proof {
                    assert(self.history() =~= h0 + calendar_write_txns(datetime).take(0));
                }
                return Err(e);
            },
        };
        match self.write_reg(PCF8523_MINUTES, enc.minutes) {
            Ok(()) => (),
            Err(e) => {
                proof {
                    assert(self.history() =~= h0 + calendar_write_txns(datetime).take(1));
                }
                return Err(e);
            },
        };
        match self.write_reg(PCF8523_HOURS, enc.hours) {
            Ok(()) => (),
            Err(e) => {
                proof {
                    assert(self.history() =~= h0 + calendar_write_txns(datetime).take(2));
                }
                return Err(e);
            },
        };
        match self.write_reg(PCF8523_DAYS, enc.day) {
            Ok(()) => (),
            Err(e) => {
                proof {
                    assert(self.history() =~= h0 + calendar_write_txns(datetime).take(3));
                }
                return Err(e);
            },
        };
        match self.write_reg(PCF8523_WEEKDAYS, enc.day_of_week) {
            Ok(()) => (),
            Err(e) => {
                proof {
                    assert(self.history() =~= h0 + calendar_write_txns(datetime).take(4));
                }
                return Err(e);
            },
        };
        match self.write_reg(PCF8523_MONTHS, enc.month) {
            Ok(()) => (),
            Err(e) => {
                proof {
                    assert(self.history() =~= h0 + calendar_write_txns(datetime).take(5));
                }
                return Err(e);
            },
        };
        match self.write_reg(PCF8523_YEARS, enc.year) {
            Ok(()) => (),
            Err(e) => {
                proof {
                    assert(self.history() =~= h0 + calendar_write_txns(datetime).take(6));
                }
                return Err(e);
            },
        };
        proof {
            assert(self.history() =~= h0 + calendar_write_txns(datetime));
        }
        Ok(())
    }
}

} // verus!
