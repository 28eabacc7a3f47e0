//! Calendar date and time of day, as the system's calendar conversion reports it.

use vstd::prelude::*;
use crate::text::{
    all_digits, lemma_padded_read_back, numeral_value, padded, power, push_char, push_padded,
};

verus! {

/// The calendar fields that the system fills in when it converts a time stamp.
#[derive(Debug, Clone, Copy, PartialEq, Eq, Structural)]
pub struct CalendarTime {
    /// Seconds after the minute.
    pub sec: i32,
    /// Minutes after the hour.
    pub min: i32,
    /// Hours since midnight.
    pub hour: i32,
    /// Day of the month.
    pub mday: i32,
    /// Months since January.
    pub mon: i32,
    /// Years since 0 AD.
    pub year: i32,
    /// Days since Sunday.
    pub wday: i32,
    /// Days since January 1st.
    pub yday: i32,
    /// Milliseconds after the second.
    pub msec: i32,
    /// Microseconds after the millisecond.
    pub usec: i32,
}

/// DateTime
#[derive(Debug, Clone, Copy, PartialEq, Eq, Structural)]
pub struct DateTime(CalendarTime);

/// The text of a date time: `YYYY-MM-DD hh:mm:ss.mmm`, where the month is
/// counted from 1 and each field is zero-padded to its width.
pub open spec fn datetime_text(c: CalendarTime) -> Seq<char> {
    padded(c.year as u32 as nat, 10, 4) + seq!['-'] + padded((c.mon as u32 + 1) as nat, 10, 2)
        + seq!['-'] + padded(c.mday as u32 as nat, 10, 2) + seq![' '] + padded(
        c.hour as u32 as nat,
        10,
        2,
    ) + seq![':'] + padded(c.min as u32 as nat, 10, 2) + seq![':'] + padded(
        c.sec as u32 as nat,
        10,
        2,
    ) + seq!['.'] + padded(c.msec as u32 as nat, 10, 3)
}

impl DateTime {
    /// The calendar fields this date time holds.
    pub closed spec fn fields(self) -> CalendarTime {
        self.0
    }

    /// Wraps the calendar fields reported by the system.
    pub fn from_calendar(c: CalendarTime) -> (r: Self)
        ensures
            r.fields() == c,
    {
        DateTime(c)
    }

    /// Seconds after the minute from 0 to 59.
    pub fn second(&self) -> (r: u32)
        ensures
            r == self.fields().sec as u32,
    {
        self.0.sec as u32
    }

    /// Returns the minute number from 0 to 59.
    pub fn minute(&self) -> (r: u32)
        ensures
            r == self.fields().min as u32,
    {
        self.0.min as u32
    }

    /// Returns the hour number from 0 to 23.
    pub fn hour(&self) -> (r: u32)
        ensures
            r == self.fields().hour as u32,
    {
        self.0.hour as u32
    }

    /// Returns the day of the month from 1 to 31.
    pub fn day_of_month(&self) -> (r: u32)
        ensures
            r == self.fields().mday as u32,
    {
        self.0.mday as u32
    }

    /// Returns the month since January from 0 to 11.
    pub fn month(&self) -> (r: u32)
        ensures
            r == self.fields().mon as u32,
    {
        self.0.mon as u32
    }

    /// Returns the year since 0 AD.
    pub fn year(&self) -> (r: u32)
        ensures
            r == self.fields().year as u32,
    {
        self.0.year as u32
    }

    /// Returns the day of the week since Sunday from 0 to 6.
    pub fn weekday(&self) -> (r: u32)
        ensures
            r == self.fields().wday as u32,
    {
        self.0.wday as u32
    }

    /// Returns the day of the year from 0 to 365.
    pub fn ordinal(&self) -> (r: u32)
        ensures
            r == self.fields().yday as u32,
    {
        self.0.yday as u32
    }

    /// Returns the milliseconds after the second from 0 to 999.
    pub fn millisecond(&self) -> (r: u32)
        ensures
            r == self.fields().msec as u32,
    {
        self.0.msec as u32
    }

    /// Returns the microseconds after the millisecond from 0 to 999.
    pub fn nanosecond(&self) -> (r: u32)
        ensures
            r == self.fields().usec as u32,
    {
        self.0.usec as u32
    }

    /// Renders the date time as `YYYY-MM-DD hh:mm:ss.mmm` (month counted from 1).
    pub fn to_string(&self) -> (s: String)
        requires
            (self.fields().mon as u32) < u32::MAX,
        ensures
            s@ == datetime_text(self.fields()),
    {
        let mut s = String::new();
        push_padded(&mut s, self.year() as u64, 10, 4);
        push_char(&mut s, '-');
        push_padded(&mut s, (self.month() + 1) as u64, 10, 2);
        push_char(&mut s, '-');
        push_padded(&mut s, self.day_of_month() as u64, 10, 2);
        push_char(&mut s, ' ');
        push_padded(&mut s, self.hour() as u64, 10, 2);
        push_char(&mut s, ':');
        push_padded(&mut s, self.minute() as u64, 10, 2);
        push_char(&mut s, ':');
        push_padded(&mut s, self.second() as u64, 10, 2);
        push_char(&mut s, '.');
        push_padded(&mut s, self.millisecond() as u64, 10, 3);
        proof {
            assert(s@ =~= datetime_text(self.fields()));
        }
        s
    }
}

/// Every field of the calendar time fits its width in the text: a year of at
/// most four digits, a month counted from 1 and a day, hour, minute and second
/// of at most two, milliseconds of at most three.
pub open spec fn fields_fit(c: CalendarTime) -> bool {
    &&& 0 <= c.year < 10000
    &&& 0 <= c.mon < 99
    &&& 0 <= c.mday < 100
    &&& 0 <= c.hour < 100
    &&& 0 <= c.min < 100
    &&& 0 <= c.sec < 100
    &&& 0 <= c.msec < 1000
}

/// The text of a date time reads back as its fields: `YYYY-MM-DD hh:mm:ss.mmm`
/// with the year in characters 0..4, the month (counted from 1) in 5..7, the
/// day of the month in 8..10, the hour in 11..13, the minute in 14..16, the
/// second in 17..19 and the milliseconds in 20..23, each in decimal digits.
pub proof fn lemma_datetime_text_reads_back(c: CalendarTime)
    requires
        fields_fit(c),
    ensures
        datetime_text(c).len() == 23,
        datetime_text(c)[4] == '-' && datetime_text(c)[7] == '-' && datetime_text(c)[10] == ' ',
        datetime_text(c)[13] == ':' && datetime_text(c)[16] == ':' && datetime_text(c)[19] == '.',
        numeral_value(datetime_text(c).subrange(0, 4), 10) == c.year,
        numeral_value(datetime_text(c).subrange(5, 7), 10) == c.mon + 1,
        numeral_value(datetime_text(c).subrange(8, 10), 10) == c.mday,
        numeral_value(datetime_text(c).subrange(11, 13), 10) == c.hour,
        numeral_value(datetime_text(c).subrange(14, 16), 10) == c.min,
        numeral_value(datetime_text(c).subrange(17, 19), 10) == c.sec,
        numeral_value(datetime_text(c).subrange(20, 23), 10) == c.msec,
        all_digits(datetime_text(c).subrange(8, 10), 10),
{
    assert(power(10, 2) == 100 && power(10, 3) == 1000 && power(10, 4) == 10000) by {
        reveal_with_fuel(power, 5);
    }
    let year = padded(c.year as u32 as nat, 10, 4);
    let mon = padded((c.mon as u32 + 1) as nat, 10, 2);
    let mday = padded(c.mday as u32 as nat, 10, 2);
    let hour = padded(c.hour as u32 as nat, 10, 2);
    let min = padded(c.min as u32 as nat, 10, 2);
    let sec = padded(c.sec as u32 as nat, 10, 2);
    let msec = padded(c.msec as u32 as nat, 10, 3);
    lemma_padded_read_back(c.year as u32 as nat, 10, 4);
    lemma_padded_read_back((c.mon as u32 + 1) as nat, 10, 2);
    lemma_padded_read_back(c.mday as u32 as nat, 10, 2);
    lemma_padded_read_back(c.hour as u32 as nat, 10, 2);
    lemma_padded_read_back(c.min as u32 as nat, 10, 2);
    lemma_padded_read_back(c.sec as u32 as nat, 10, 2);
    lemma_padded_read_back(c.msec as u32 as nat, 10, 3);
    let t = datetime_text(c);
    assert(t =~= year + seq!['-'] + mon + seq!['-'] + mday + seq![' '] + hour + seq![':'] + min
        + seq![':'] + sec + seq!['.'] + msec);
    assert(t.subrange(0, 4) =~= year);
    assert(t.subrange(5, 7) =~= mon);
    assert(t.subrange(8, 10) =~= mday);
    assert(t.subrange(11, 13) =~= hour);
    assert(t.subrange(14, 16) =~= min);
    assert(t.subrange(17, 19) =~= sec);
    assert(t.subrange(20, 23) =~= msec);
}

} // verus!
