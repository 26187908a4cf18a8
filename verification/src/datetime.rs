//! Calendar value types: day of week, month, and the seven-field date-time
//! record the driver reads from and writes to the chip.

use vstd::prelude::*;
use crate::bits::{decode_bcd, encode_bcd, spec_decode_bcd, spec_encode_bcd};

verus! {

/// A day of the week, Sunday first, as the chip counts them (0 to 6).
#[derive(Debug, PartialEq, Eq, Clone, Copy)]
pub enum DayOfWeek {
    Sunday,
    Monday,
    Tuesday,
    Wednesday,
    Thursday,
    Friday,
    Saturday,
}

impl DayOfWeek {
    /// The value the chip stores in the WEEKDAYS register.
    pub open spec fn spec_value(self) -> u8 {
        match self {
            DayOfWeek::Sunday => 0x0,
            DayOfWeek::Monday => 0x1,
            DayOfWeek::Tuesday => 0x2,
            DayOfWeek::Wednesday => 0x3,
            DayOfWeek::Thursday => 0x4,
            DayOfWeek::Friday => 0x5,
            DayOfWeek::Saturday => 0x6,
        }
    }

    pub fn value(self) -> (v: u8)
        ensures
            v == self.spec_value(),
    {
        match self {
            DayOfWeek::Sunday => 0x0,
            DayOfWeek::Monday => 0x1,
            DayOfWeek::Tuesday => 0x2,
            DayOfWeek::Wednesday => 0x3,
            DayOfWeek::Thursday => 0x4,
            DayOfWeek::Friday => 0x5,
            DayOfWeek::Saturday => 0x6,
        }
    }

    /// The day a chip-side value stands for; `None` above 6.
    pub fn from_value(value: u8) -> (r: Option<DayOfWeek>)
        ensures
            match r {
                Some(d) => d.spec_value() == value,
                None => value > 6,
            },
    {
        match value {
            0x0 => Some(DayOfWeek::Sunday),
            0x1 => Some(DayOfWeek::Monday),
            0x2 => Some(DayOfWeek::Tuesday),
            0x3 => Some(DayOfWeek::Wednesday),
            0x4 => Some(DayOfWeek::Thursday),
            0x5 => Some(DayOfWeek::Friday),
            0x6 => Some(DayOfWeek::Saturday),
            _ => None,
        }
    }
}

/// A month, January = 1, as the chip counts them.
#[derive(Debug, PartialEq, Eq, Clone, Copy)]
pub enum Month {
    January,
    February,
    March,
    April,
    May,
    June,
    July,
    August,
    September,
    October,
    November,
    December,
}

impl Month {
    /// The value the chip stores in the MONTHS register.
    pub open spec fn spec_value(self) -> u8 {
        match self {
            Month::January => 0x1,
            Month::February => 0x2,
            Month::March => 0x3,
            Month::April => 0x4,
            Month::May => 0x5,
            Month::June => 0x6,
            Month::July => 0x7,
            Month::August => 0x8,
            Month::September => 0x9,
            Month::October => 0xa,
            Month::November => 0xb,
            Month::December => 0xc,
        }
    }

    pub fn value(self) -> (v: u8)
        ensures
            v == self.spec_value(),
    {
        match self {
            Month::January => 0x1,
            Month::February => 0x2,
            Month::March => 0x3,
            Month::April => 0x4,
            Month::May => 0x5,
            Month::June => 0x6,
            Month::July => 0x7,
            Month::August => 0x8,
            Month::September => 0x9,
            Month::October => 0xa,
            Month::November => 0xb,
            Month::December => 0xc,
        }
    }

    /// The month a chip-side value stands for; `None` outside 1 to 12.
    pub fn from_value(value: u8) -> (r: Option<Month>)
        ensures
            match r {
                Some(m) => m.spec_value() == value,
                None => value == 0 || value > 12,
            },
    {
        match value {
            0x1 => Some(Month::January),
            0x2 => Some(Month::February),
            0x3 => Some(Month::March),
            0x4 => Some(Month::April),
            0x5 => Some(Month::May),
            0x6 => Some(Month::June),
            0x7 => Some(Month::July),
            0x8 => Some(Month::August),
            0x9 => Some(Month::September),
            0xa => Some(Month::October),
            0xb => Some(Month::November),
            0xc => Some(Month::December),
            _ => None,
        }
    }
}

/// A calendar reading or setting, fields in plain (not BCD) form except where
/// a method says otherwise.
#[derive(Debug, PartialEq, Eq, Clone, Copy)]
pub struct DateTime {
    pub seconds: u8,
    pub minutes: u8,
    pub hours: u8,
    pub day: u8,
    pub day_of_week: u8,
    pub month: u8,
    pub year: u8,
}

impl DateTime {
    /// The field ranges the constructor enforces; also what `encode` needs
    /// (every field below 100).
    pub open spec fn wf(self) -> bool {
        &&& self.seconds <= 59
        &&& self.minutes <= 59
        &&& self.hours <= 23
        &&& 1 <= self.day <= 31
        &&& self.day_of_week <= 6
        &&& 1 <= self.month <= 12
        &&& self.year <= 99
    }

    /// Build a validated date-time. Hours are 24-hour form (0 to 23); see
    /// `Pcf8523::set_datetime` for how they reach the chip.
    pub fn new(
        seconds: u8,
        minutes: u8,
        hours: u8,
        day: u8,
        day_of_week: DayOfWeek,
        month: Month,
        year: u8,
    ) -> (r: Option<Self>)
        ensures
            r is Some <==> (seconds <= 59 && minutes <= 59 && hours <= 23 && 1 <= day && day <= 31
                && year <= 99),
            match r {
                Some(d) => d == (DateTime {
                    seconds,
                    minutes,
                    hours,
                    day,
                    day_of_week: day_of_week.spec_value(),
                    month: month.spec_value(),
                    year,
                }) && d.wf(),
                None => true,
            },
    {
        if seconds > 59 {
            return None;
        }
        if minutes > 59 {
            return None;
        }
        if hours > 23 {
            return None;
        }
        if day < 1 || day > 31 {
            return None;
        }
        if year > 99 {
            return None;
        }
        Some(
            Self {
                seconds,
                minutes,
                hours,
                day,
                day_of_week: day_of_week.value(),
                month: month.value(),
                year,
            },
        )
    }

    /// The same record with every field taken as BCD and decoded.
    pub fn decode(&self) -> (r: Self)
        ensures
            r == (DateTime {
                seconds: spec_decode_bcd(self.seconds),
                minutes: spec_decode_bcd(self.minutes),
                hours: spec_decode_bcd(self.hours),
                day: spec_decode_bcd(self.day),
                day_of_week: spec_decode_bcd(self.day_of_week),
                month: spec_decode_bcd(self.month),
                year: spec_decode_bcd(self.year),
            }),
    {
        Self {
            seconds: decode_bcd(self.seconds),
            minutes: decode_bcd(self.minutes),
            hours: decode_bcd(self.hours),
            day: decode_bcd(self.day),
            day_of_week: decode_bcd(self.day_of_week),
            month: decode_bcd(self.month),
            year: decode_bcd(self.year),
        }
    }

    /// The same record with every field BCD-encoded, ready for the calendar
    /// registers.
    pub fn encode(&self) -> (r: Self)
        requires
            self.wf(),
        ensures
            r == (DateTime {
                seconds: spec_encode_bcd(self.seconds),
                minutes: spec_encode_bcd(self.minutes),
                hours: spec_encode_bcd(self.hours),
                day: spec_encode_bcd(self.day),
                day_of_week: spec_encode_bcd(self.day_of_week),
                month: spec_encode_bcd(self.month),
                year: spec_encode_bcd(self.year),
            }),
    {
        Self {
            seconds: encode_bcd(self.seconds),
            minutes: encode_bcd(self.minutes),
            hours: encode_bcd(self.hours),
            day: encode_bcd(self.day),
            day_of_week: encode_bcd(self.day_of_week),
            month: encode_bcd(self.month),
            year: encode_bcd(self.year),
        }
    }
}

impl Default for DateTime {
    /// Midnight on the first day of January, day-of-week Sunday, year 0: the
    /// earliest valid calendar value.
    fn default() -> (d: Self)
        ensures
            d == (DateTime {
                seconds: 0u8,
                minutes: 0u8,
                hours: 0u8,
                day: 1u8,
                day_of_week: 0u8,
                month: 1u8,
                year: 0u8,
            }),
            d.wf(),
    {
        Self { seconds: 0, minutes: 0, hours: 0, day: 1, day_of_week: 0, month: 1, year: 0 }
    }
}

/// Law: decoding an encoded record restores it, field by field, for every
/// record the constructor can produce.
pub proof fn lemma_datetime_decode_encode(dt: DateTime)
    requires
        dt.wf(),
    ensures
        (DateTime {
            seconds: spec_decode_bcd(spec_encode_bcd(dt.seconds)),
            minutes: spec_decode_bcd(spec_encode_bcd(dt.minutes)),
            hours: spec_decode_bcd(spec_encode_bcd(dt.hours)),
            day: spec_decode_bcd(spec_encode_bcd(dt.day)),
            day_of_week: spec_decode_bcd(spec_encode_bcd(dt.day_of_week)),
            month: spec_decode_bcd(spec_encode_bcd(dt.month)),
            year: spec_decode_bcd(spec_encode_bcd(dt.year)),
        }) == dt,
{
    crate::bits::lemma_bcd_decode_encode(dt.seconds);
    crate::bits::lemma_bcd_decode_encode(dt.minutes);
    crate::bits::lemma_bcd_decode_encode(dt.hours);
    crate::bits::lemma_bcd_decode_encode(dt.day);
    crate::bits::lemma_bcd_decode_encode(dt.day_of_week);
    crate::bits::lemma_bcd_decode_encode(dt.month);
    crate::bits::lemma_bcd_decode_encode(dt.year);
}

} // verus!
