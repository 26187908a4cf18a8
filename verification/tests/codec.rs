use nxp_pcf8523::bits::{decode_bcd, encode_bcd, get_bits, set_bits};
use nxp_pcf8523::datetime::{DateTime, DayOfWeek, Month};
use nxp_pcf8523::driver::{Pcf8523, PCF8523_I2C_ADDRESS};
use nxp_pcf8523::registers::PCF8523_DAYS;
use nxp_pcf8523::sim::{SimBus, SimEntry};

fn reg_read(reg: u8, payload: u8) -> SimEntry {
    SimEntry::WriteRead {
        addr: PCF8523_I2C_ADDRESS,
        sent: vec![reg],
        reply: vec![payload],
        fault: false,
    }
}

#[test]
fn bits_decode_bcd_floor() {
    assert_eq!(decode_bcd(0b0), 0u8);
}

#[test]
fn bits_decode_bcd_ceiling() {
    assert_eq!(decode_bcd(0b1001_1001), 99u8);
}

#[test]
fn bits_encode_bcd_floor() {
    assert_eq!(encode_bcd(0u8), 0b0);
}

#[test]
fn bits_encode_bcd_ceiling() {
    assert_eq!(encode_bcd(99u8), 0b1001_1001);
}

#[test]
fn lib_decode_bcd_floor() {
    assert_eq!(decode_bcd(0b0), 0u8);
}

#[test]
fn lib_decode_bcd_ceiling() {
    assert_eq!(decode_bcd(0b1001_1001), 99u8);
}

#[test]
fn lib_encode_bcd_floor() {
    assert_eq!(encode_bcd(0u8), 0b0);
}

#[test]
fn lib_encode_bcd_ceiling() {
    assert_eq!(encode_bcd(99u8), 0b1001_1001);
}

#[test]
fn bcd_round_trip_all_valid_values() {
    for x in 0u8..100u8 {
        assert_eq!(decode_bcd(encode_bcd(x)), x);
    }
}

#[test]
fn bcd_encode_after_decode_valid_nibbles() {
    for tens in 0u8..10u8 {
        for ones in 0u8..10u8 {
            let b = (tens << 4) | ones;
            assert_eq!(encode_bcd(decode_bcd(b)), b);
        }
    }
}

#[test]
fn get_bits_extracts_field() {
    assert_eq!(get_bits(0b1010_1100, 4, 2), 0b1011);
    assert_eq!(get_bits(0b1000_0000, 1, 7), 1);
    assert_eq!(get_bits(0b1111_1111, 8, 0), 0xff);
}

#[test]
fn set_bits_replaces_only_the_mask() {
    let mut byte = 0b1100_0111u8;
    set_bits(&mut byte, 0, 3, 0b1000);
    assert_eq!(byte, 0b1100_0111);
    let mut byte = 0b1100_1111u8;
    set_bits(&mut byte, 0, 3, 0b1000);
    assert_eq!(byte, 0b1100_0111);
    let mut byte = 0b0001_1010u8;
    set_bits(&mut byte, 0x2, 5, 0b1110_0000);
    assert_eq!(byte, 0b0101_1010);
}

#[test]
fn test_new_invalid_seconds_none() {
    assert!(DateTime::new(60, 0, 0, 1, DayOfWeek::Sunday, Month::January, 0).is_none());
}

#[test]
fn test_new_invalid_minutes_none() {
    assert!(DateTime::new(0, 60, 0, 1, DayOfWeek::Sunday, Month::January, 0).is_none());
}

#[test]
fn test_new_invalid_hours_none() {
    assert!(DateTime::new(0, 0, 24, 1, DayOfWeek::Sunday, Month::January, 0).is_none());
}

#[test]
fn test_new_invalid_day_none() {
    assert!(DateTime::new(0, 0, 0, 32, DayOfWeek::Sunday, Month::January, 0).is_none());
    assert!(DateTime::new(0, 0, 0, 0, DayOfWeek::Sunday, Month::January, 0).is_none());
}

#[test]
fn test_new_invalid_year_none() {
    assert!(DateTime::new(0, 0, 0, 1, DayOfWeek::Sunday, Month::January, 100).is_none());
}

#[test]
fn test_new_some() {
    let dt = DateTime::new(59, 15, 2, 11, DayOfWeek::Wednesday, Month::October, 45).unwrap();
    assert_eq!(dt.seconds, 59);
    assert_eq!(dt.minutes, 15);
    assert_eq!(dt.hours, 2);
    assert_eq!(dt.day, 11);
    assert_eq!(dt.day_of_week, 3);
    assert_eq!(dt.month, 10);
    assert_eq!(dt.year, 45);
    let enc = dt.encode();
    assert_eq!(enc.seconds, 0b0101_1001);
    assert_eq!(enc.minutes, 0b0001_0101);
    assert_eq!(enc.month, 0b0001_0000);
    assert_eq!(enc.decode(), dt);
}

#[test]
fn datetime_default_is_start_of_calendar() {
    let dt = DateTime::default();
    assert_eq!(dt.seconds, 0);
    assert_eq!(dt.minutes, 0);
    assert_eq!(dt.hours, 0);
    assert_eq!(dt.day, 1);
    assert_eq!(dt.day_of_week, 0);
    assert_eq!(dt.month, 1);
    assert_eq!(dt.year, 0);
}

#[test]
fn day_of_week_and_month_values_round_trip() {
    for v in 0u8..7u8 {
        assert_eq!(DayOfWeek::from_value(v).unwrap().value(), v);
    }
    assert!(DayOfWeek::from_value(7).is_none());
    for v in 1u8..13u8 {
        assert_eq!(Month::from_value(v).unwrap().value(), v);
    }
    assert!(Month::from_value(0).is_none());
    assert!(Month::from_value(13).is_none());
}

#[test]
fn lib_get_day_of_month_leap_year_ok() {
    let expectations = vec![reg_read(PCF8523_DAYS, 0b0010_1001)];
    let mut driver = Pcf8523::new(SimBus::new(expectations));
    let day = driver.get_day_of_month().unwrap();
    assert_eq!(day, 29u8);
    assert!(driver.release().done());
}

#[test]
fn mod_get_day_of_month_leap_year_ok() {
    let expectations = vec![reg_read(PCF8523_DAYS, 0b0010_1001)];
    let mut driver = Pcf8523::new(SimBus::new(expectations));
    let day = driver.get_day_of_month().unwrap();
    assert_eq!(day, 29u8);
    assert!(driver.release().done());
}
