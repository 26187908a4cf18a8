use nxp_pcf8523::datetime::{DateTime, DayOfWeek, Month};
use nxp_pcf8523::driver::{Pcf8523, PCF8523_I2C_ADDRESS};
use nxp_pcf8523::registers::{
    PCF8523_CONTROL_1, PCF8523_CONTROL_2, PCF8523_CONTROL_3, PCF8523_DAYS, PCF8523_HOURS,
    PCF8523_MINUTES, PCF8523_MONTHS, PCF8523_SECONDS, PCF8523_WEEKDAYS, PCF8523_YEARS,
};
use nxp_pcf8523::sim::{SimBus, SimBusError, SimEntry};
use nxp_pcf8523::typedefs::{Pcf8523Error, Pcf8523Interrupt, PowerManagement};

fn reg_read(reg: u8, payload: u8) -> SimEntry {
    SimEntry::WriteRead {
        addr: PCF8523_I2C_ADDRESS,
        sent: vec![reg],
        reply: vec![payload],
        fault: false,
    }
}

fn reg_read_fault(reg: u8, payload: u8) -> SimEntry {
    SimEntry::WriteRead {
        addr: PCF8523_I2C_ADDRESS,
        sent: vec![reg],
        reply: vec![payload],
        fault: true,
    }
}

fn reg_write(reg: u8, payload: u8) -> SimEntry {
    SimEntry::Write { addr: PCF8523_I2C_ADDRESS, sent: vec![reg, payload], fault: false }
}

fn reg_write_fault(reg: u8, payload: u8) -> SimEntry {
    SimEntry::Write { addr: PCF8523_I2C_ADDRESS, sent: vec![reg, payload], fault: true }
}

#[test]
fn mod_clear_bsf_interrupt_ok() {
    let expectations = vec![
        reg_read(PCF8523_CONTROL_3, 0b1100_0111),
        reg_write(PCF8523_CONTROL_3, 0b1100_0011),
    ];
    let mut driver = Pcf8523::new(SimBus::new(expectations));
    driver.clear_interrupt(Pcf8523Interrupt::BatterySwitchOver).unwrap();
    assert!(driver.release().done());
}

#[test]
fn mod_clear_countdown_timer_a_interrupt_ok() {
    let expectations = vec![
        reg_read(PCF8523_CONTROL_2, 0b1100_0111),
        reg_write(PCF8523_CONTROL_2, 0b1000_0111),
    ];
    let mut driver = Pcf8523::new(SimBus::new(expectations));
    driver.clear_interrupt(Pcf8523Interrupt::CountdownTimerA).unwrap();
    assert!(driver.release().done());
}

#[test]
fn mod_clear_countdown_timer_b_interrupt_ok() {
    let expectations = vec![
        reg_read(PCF8523_CONTROL_2, 0b1010_0111),
        reg_write(PCF8523_CONTROL_2, 0b1000_0111),
    ];
    let mut driver = Pcf8523::new(SimBus::new(expectations));
    driver.clear_interrupt(Pcf8523Interrupt::CountdownTimerB).unwrap();
    assert!(driver.release().done());
}

#[test]
fn mod_clear_second_interrupt_ok() {
    let expectations = vec![
        reg_read(PCF8523_CONTROL_2, 0b1001_0111),
        reg_write(PCF8523_CONTROL_2, 0b1000_0111),
    ];
    let mut driver = Pcf8523::new(SimBus::new(expectations));
    driver.clear_interrupt(Pcf8523Interrupt::Second).unwrap();
    assert!(driver.release().done());
}

#[test]
fn mod_clear_watchdog_timer_a_interrupt_ok() {
    let expectations = vec![reg_read(PCF8523_CONTROL_2, 0b1010_0101)];
    let mut driver = Pcf8523::new(SimBus::new(expectations));
    driver.clear_interrupt(Pcf8523Interrupt::WatchdogTimerA).unwrap();
    assert!(driver.release().done());
}

#[test]
fn mod_get_day_of_month_ok() {
    let expectations = vec![reg_read(PCF8523_DAYS, 0b1_1111)];
    let mut driver = Pcf8523::new(SimBus::new(expectations));
    let day = driver.get_day_of_month().unwrap();
    assert_eq!(day, 25u8);
    assert!(driver.release().done());
}

#[test]
fn mod_get_day_of_week_ok() {
    let expectations = vec![reg_read(PCF8523_WEEKDAYS, 0b110)];
    let mut driver = Pcf8523::new(SimBus::new(expectations));
    let day = driver.get_day_of_week().unwrap();
    assert_eq!(day, 6u8);
    assert!(driver.release().done());
}

#[test]
fn mod_get_interrupt_enabled_alarm_false() {
    let expectations = vec![reg_read(PCF8523_CONTROL_1, 0b0)];
    let mut driver = Pcf8523::new(SimBus::new(expectations));
    let enabled = driver.get_interrupt_enabled(Pcf8523Interrupt::Alarm).unwrap();
    assert!(!enabled);
    assert!(driver.release().done());
}

#[test]
fn mod_get_interrupt_enabled_alarm_true() {
    let expectations = vec![reg_read(PCF8523_CONTROL_1, 0b10)];
    let mut driver = Pcf8523::new(SimBus::new(expectations));
    let enabled = driver.get_interrupt_enabled(Pcf8523Interrupt::Alarm).unwrap();
    assert!(enabled);
    assert!(driver.release().done());
}

#[test]
fn mod_get_interrupt_enabled_battery_switch_over_false() {
    let expectations = vec![reg_read(PCF8523_CONTROL_3, 0b00)];
    let mut driver = Pcf8523::new(SimBus::new(expectations));
    let enabled = driver.get_interrupt_enabled(Pcf8523Interrupt::BatterySwitchOver).unwrap();
    assert!(!enabled);
    assert!(driver.release().done());
}

#[test]
fn mod_get_interrupt_enabled_battery_switch_over_true() {
    let expectations = vec![reg_read(PCF8523_CONTROL_3, 0b10)];
    let mut driver = Pcf8523::new(SimBus::new(expectations));
    let enabled = driver.get_interrupt_enabled(Pcf8523Interrupt::BatterySwitchOver).unwrap();
    assert!(enabled);
    assert!(driver.release().done());
}

#[test]
fn mod_get_interrupt_enabled_countdown_timer_a_false() {
    let expectations = vec![reg_read(PCF8523_CONTROL_2, 0b00)];
    let mut driver = Pcf8523::new(SimBus::new(expectations));
    let enabled = driver.get_interrupt_enabled(Pcf8523Interrupt::CountdownTimerA).unwrap();
    assert!(!enabled);
    assert!(driver.release().done());
}

#[test]
fn mod_get_interrupt_enabled_countdown_timer_a_true() {
    let expectations = vec![reg_read(PCF8523_CONTROL_2, 0b10)];
    let mut driver = Pcf8523::new(SimBus::new(expectations));
    let enabled = driver.get_interrupt_enabled(Pcf8523Interrupt::CountdownTimerA).unwrap();
    assert!(enabled);
    assert!(driver.release().done());
}

#[test]
fn mod_get_interrupt_enabled_countdown_timer_b_false() {
    let expectations = vec![reg_read(PCF8523_CONTROL_2, 0b0)];
    let mut driver = Pcf8523::new(SimBus::new(expectations));
    let enabled = driver.get_interrupt_enabled(Pcf8523Interrupt::CountdownTimerB).unwrap();
    assert!(!enabled);
    assert!(driver.release().done());
}

#[test]
fn mod_get_interrupt_enabled_countdown_timer_b_true() {
    let expectations = vec![reg_read(PCF8523_CONTROL_2, 0b1)];
    let mut driver = Pcf8523::new(SimBus::new(expectations));
    let enabled = driver.get_interrupt_enabled(Pcf8523Interrupt::CountdownTimerB).unwrap();
    assert!(enabled);
    assert!(driver.release().done());
}

#[test]
fn mod_get_interrupt_enabled_second_false() {
    let expectations = vec![reg_read(PCF8523_CONTROL_1, 0b011)];
    let mut driver = Pcf8523::new(SimBus::new(expectations));
    let enabled = driver.get_interrupt_enabled(Pcf8523Interrupt::Second).unwrap();
    assert!(!enabled);
    assert!(driver.release().done());
}

#[test]
fn mod_get_interrupt_enabled_second_true() {
    let expectations = vec![reg_read(PCF8523_CONTROL_1, 0b111)];
    let mut driver = Pcf8523::new(SimBus::new(expectations));
    let enabled = driver.get_interrupt_enabled(Pcf8523Interrupt::Second).unwrap();
    assert!(enabled);
    assert!(driver.release().done());
}

#[test]
fn mod_get_interrupt_enabled_watchdog_timer_a_false() {
    let expectations = vec![reg_read(PCF8523_CONTROL_2, 0b011)];
    let mut driver = Pcf8523::new(SimBus::new(expectations));
    let enabled = driver.get_interrupt_enabled(Pcf8523Interrupt::WatchdogTimerA).unwrap();
    assert!(!enabled);
    assert!(driver.release().done());
}

#[test]
fn mod_get_interrupt_enabled_watchdog_timer_a_true() {
    let expectations = vec![reg_read(PCF8523_CONTROL_2, 0b100)];
    let mut driver = Pcf8523::new(SimBus::new(expectations));
    let enabled = driver.get_interrupt_enabled(Pcf8523Interrupt::WatchdogTimerA).unwrap();
    assert!(enabled);
    assert!(driver.release().done());
}

#[test]
fn mod_get_month_ok() {
    let expectations = vec![reg_read(PCF8523_MONTHS, 0b1_0001)];
    let mut driver = Pcf8523::new(SimBus::new(expectations));
    let month = driver.get_month().unwrap();
    assert_eq!(month, 11u8);
    assert!(driver.release().done());
}

#[test]
fn mod_get_year_ok() {
    let expectations = vec![reg_read(PCF8523_YEARS, 0b10_0101)];
    let mut driver = Pcf8523::new(SimBus::new(expectations));
    let year = driver.get_year().unwrap();
    assert_eq!(year, 25u8);
    assert!(driver.release().done());
}

#[test]
fn mod_read_reg_i2c_err() {
    let expectations = vec![reg_read_fault(PCF8523_CONTROL_1, 0b0101_0110)];
    let mut driver = Pcf8523::new(SimBus::new(expectations));
    let err = driver.read_reg(PCF8523_CONTROL_1).unwrap_err();
    assert_eq!(err, Pcf8523Error::I2C(SimBusError::Fault));
    assert!(driver.release().done());
}

#[test]
fn mod_read_reg_ok() {
    let expectations = vec![reg_read(PCF8523_CONTROL_1, 0b0101_0110)];
    let mut driver = Pcf8523::new(SimBus::new(expectations));
    let val = driver.read_reg(PCF8523_CONTROL_1).unwrap();
    assert_eq!(val, 0b0101_0110);
    assert!(driver.release().done());
}

#[test]
fn mod_reset_ok() {
    let expectations = vec![reg_write(PCF8523_CONTROL_1, 0b0101_1000)];
    let mut driver = Pcf8523::new(SimBus::new(expectations));
    driver.software_reset().unwrap();
    assert!(driver.release().done());
}

#[test]
fn mod_get_minutes_ok() {
    let expectations = vec![reg_read(PCF8523_MINUTES, 0b0001_1011)];
    let mut driver = Pcf8523::new(SimBus::new(expectations));
    let minutes = driver.get_minutes().unwrap();
    assert_eq!(minutes, 21u8);
    assert!(driver.release().done());
}

#[test]
fn mod_get_seconds_ok() {
    let expectations = vec![reg_read(PCF8523_SECONDS, 0b0101_1000)];
    let mut driver = Pcf8523::new(SimBus::new(expectations));
    let seconds = driver.get_seconds().unwrap();
    assert_eq!(seconds, 58u8);
    assert!(driver.release().done());
}

#[test]
fn mod_write_reg_i2c_err() {
    let expectations = vec![reg_write_fault(PCF8523_CONTROL_1, 0b0101_0110)];
    let mut driver = Pcf8523::new(SimBus::new(expectations));
    let err = driver.write_reg(PCF8523_CONTROL_1, 0b0101_0110).unwrap_err();
    assert_eq!(err, Pcf8523Error::I2C(SimBusError::Fault));
    assert!(driver.release().done());
}

#[test]
fn mod_write_reg_ok() {
    let expectations = vec![reg_write(PCF8523_CONTROL_1, 0b0101_0010)];
    let mut driver = Pcf8523::new(SimBus::new(expectations));
    driver.write_reg(PCF8523_CONTROL_1, 0b0101_0010).unwrap();
    assert!(driver.release().done());
}

#[test]
fn freeze_rtc_time_circuits_ok() {
    let expectations = vec![
        reg_read(PCF8523_CONTROL_1, 0b0101_1110),
        reg_write(PCF8523_CONTROL_1, 0b0111_1110),
    ];
    let mut driver = Pcf8523::new(SimBus::new(expectations));
    driver.freeze_rtc_time_circuits(true).unwrap();
    assert!(driver.release().done());
}

#[test]
fn freeze_rtc_time_circuits_unfreeze_clears_the_bit() {
    let expectations = vec![
        reg_read(PCF8523_CONTROL_1, 0b0111_1110),
        reg_write(PCF8523_CONTROL_1, 0b0101_1110),
    ];
    let mut driver = Pcf8523::new(SimBus::new(expectations));
    driver.freeze_rtc_time_circuits(false).unwrap();
    assert!(driver.release().done());
}

#[test]
fn get_battery_status_low_false_ok() {
    let expectations = vec![reg_read(PCF8523_CONTROL_3, 0b0)];
    let mut driver = Pcf8523::new(SimBus::new(expectations));
    let low = driver.get_battery_status().unwrap();
    assert!(!low);
    assert!(driver.release().done());
}

#[test]
fn get_battery_status_low_true_ok() {
    let expectations = vec![reg_read(PCF8523_CONTROL_3, 0b100)];
    let mut driver = Pcf8523::new(SimBus::new(expectations));
    let low = driver.get_battery_status().unwrap();
    assert!(low);
    assert!(driver.release().done());
}

#[test]
fn get_clock_integrity_guaranteed_false_ok() {
    let expectations = vec![reg_read(PCF8523_SECONDS, 0b1011_0010)];
    let mut driver = Pcf8523::new(SimBus::new(expectations));
    let guaranteed = driver.get_clock_integrity_guaranteed().unwrap();
    assert!(!guaranteed);
    assert!(driver.release().done());
}

#[test]
fn get_clock_integrity_guaranteed_true_ok() {
    let expectations = vec![reg_read(PCF8523_SECONDS, 0b0011_0010)];
    let mut driver = Pcf8523::new(SimBus::new(expectations));
    let guaranteed = driver.get_clock_integrity_guaranteed().unwrap();
    assert!(guaranteed);
    assert!(driver.release().done());
}

#[test]
fn get_correction_interrupt_generated_false_ok() {
    let expectations = vec![reg_read(PCF8523_CONTROL_1, 0b0)];
    let mut driver = Pcf8523::new(SimBus::new(expectations));
    let generated = driver.get_correction_interrupt_generated().unwrap();
    assert!(!generated);
    assert!(driver.release().done());
}

#[test]
fn get_correction_interrupt_generated_true_ok() {
    let expectations = vec![reg_read(PCF8523_CONTROL_1, 0b1)];
    let mut driver = Pcf8523::new(SimBus::new(expectations));
    let generated = driver.get_correction_interrupt_generated().unwrap();
    assert!(generated);
    assert!(driver.release().done());
}

#[test]
fn get_datetime_ok() {
    let expectations = vec![
        // all payloads are bcd-encoded
        reg_read(PCF8523_SECONDS, 0b0),
        reg_read(PCF8523_MINUTES, 0b0),
        reg_read(PCF8523_HOURS, 0b0),
        reg_read(PCF8523_DAYS, 0b0),
        reg_read(PCF8523_WEEKDAYS, 0b0),
        reg_read(PCF8523_MONTHS, 0b1),
        reg_read(PCF8523_YEARS, 0b0),
    ];
    let mut driver = Pcf8523::new(SimBus::new(expectations));
    let dt = driver.get_datetime().unwrap();
    assert_eq!(dt.seconds, 0);
    assert_eq!(dt.month, 1);
    assert!(driver.release().done());
}

#[test]
fn select_oscillator_capacitor_ok() {
    let expectations = vec![
        reg_read(PCF8523_CONTROL_1, 0b0101_0110),
        reg_write(PCF8523_CONTROL_1, 0b1101_0110),
    ];
    let mut driver = Pcf8523::new(SimBus::new(expectations));
    driver.select_oscillator_capacitor(true).unwrap();
    assert!(driver.release().done());
}

#[test]
fn select_hour_mode_ok() {
    let expectations = vec![
        reg_read(PCF8523_CONTROL_1, 0b1001_0010),
        reg_write(PCF8523_CONTROL_1, 0b1001_1010),
    ];
    let mut driver = Pcf8523::new(SimBus::new(expectations));
    driver.select_hour_mode(true).unwrap();
    assert!(driver.release().done());
}

#[test]
fn select_power_management_ok() {
    let expectations = vec![
        reg_read(PCF8523_CONTROL_3, 0b0001_1010),
        reg_write(PCF8523_CONTROL_3, 0b0101_1010),
    ];
    let mut driver = Pcf8523::new(SimBus::new(expectations));
    driver
        .select_power_management(PowerManagement::SwitchOverDisabledLowDetectionEnabled)
        .unwrap();
    assert!(driver.release().done());
}

#[test]
fn set_datetime_ok() {
    // every payload is the bcd encoding of the corresponding field
    let expectations = vec![
        reg_write(PCF8523_SECONDS, 0b0101_1001),
        reg_write(PCF8523_MINUTES, 0b0001_0101),
        reg_write(PCF8523_HOURS, 0b0000_0010),
        reg_write(PCF8523_DAYS, 0b0001_0001),
        reg_write(PCF8523_WEEKDAYS, 0b0000_0011),
        reg_write(PCF8523_MONTHS, 0b0001_0000),
        reg_write(PCF8523_YEARS, 0b0100_0101),
    ];
    let mut driver = Pcf8523::new(SimBus::new(expectations));
    let datetime = DateTime::new(59, 15, 2, 11, DayOfWeek::Wednesday, Month::October, 45).unwrap();
    driver.set_datetime(datetime).unwrap();
    assert!(driver.release().done());
}
