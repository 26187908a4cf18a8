//! The PCF8523 register map: one named address for every register the driver
//! touches, per the datasheet.

use vstd::prelude::*;

verus! {

pub const PCF8523_CONTROL_1: u8 = 0x00;

pub const PCF8523_CONTROL_2: u8 = 0x01;

pub const PCF8523_CONTROL_3: u8 = 0x02;

pub const PCF8523_SECONDS: u8 = 0x03;

pub const PCF8523_MINUTES: u8 = 0x04;

pub const PCF8523_HOURS: u8 = 0x05;

pub const PCF8523_DAYS: u8 = 0x06;

pub const PCF8523_WEEKDAYS: u8 = 0x07;

pub const PCF8523_MONTHS: u8 = 0x08;

pub const PCF8523_YEARS: u8 = 0x09;

pub const PCF8523_MINUTE_ALARM: u8 = 0x0a;

pub const PCF8523_HOUR_ALARM: u8 = 0x0b;

pub const PCF8523_DAY_ALARM: u8 = 0x0c;

pub const PCF8523_WEEKDAY_ALARM: u8 = 0x0d;

pub const PCF8523_OFFSET: u8 = 0x0e;

pub const PCF8523_TMR_CLKOUT_CTRL: u8 = 0x0f;

pub const PCF8523_TMR_A_FREQ_CTRL: u8 = 0x10;

pub const PCF8523_TMR_A_REG: u8 = 0x11;

pub const PCF8523_TMR_B_FREQ_CTRL: u8 = 0x12;

pub const PCF8523_TMR_B_REG: u8 = 0x13;

} // verus!
