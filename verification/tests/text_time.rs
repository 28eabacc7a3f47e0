use cafe_rs::datetime::{CalendarTime, DateTime};
use cafe_rs::process::TitleID;
use cafe_rs::text::digits_of;
use cafe_rs::time::SystemTime;
use cafe_rs::Error;

const BUS_CLOCK: u32 = 248_625_000;

fn sample_calendar() -> CalendarTime {
    CalendarTime {
        sec: 9,
        min: 3,
        hour: 7,
        mday: 5,
        mon: 0,
        year: 2024,
        wday: 5,
        yday: 4,
        msec: 42,
        usec: 7,
    }
}

#[test]
fn datetime_getters_report_fields() {
    let dt = DateTime::from_calendar(sample_calendar());
    assert_eq!(dt.second(), 9);
    assert_eq!(dt.minute(), 3);
    assert_eq!(dt.hour(), 7);
    assert_eq!(dt.day_of_month(), 5);
    assert_eq!(dt.month(), 0);
    assert_eq!(dt.year(), 2024);
    assert_eq!(dt.weekday(), 5);
    assert_eq!(dt.ordinal(), 4);
    assert_eq!(dt.millisecond(), 42);
    assert_eq!(dt.nanosecond(), 7);
}

#[test]
fn datetime_getter_of_negative_field_wraps() {
    let mut c = sample_calendar();
    c.sec = -1;
    assert_eq!(DateTime::from_calendar(c).second(), u32::MAX);
}

#[test]
fn datetime_text_pads_and_counts_months_from_one() {
    let dt = DateTime::from_calendar(sample_calendar());
    assert_eq!(dt.to_string(), "2024-01-05 07:03:09.042");
}

#[test]
fn datetime_text_does_not_cut_wide_fields() {
    let mut c = sample_calendar();
    c.year = 12345;
    c.mon = 11;
    c.msec = 999;
    assert_eq!(DateTime::from_calendar(c).to_string(), "12345-12-05 07:03:09.999");
}

#[test]
fn digits_in_base_ten_and_sixteen() {
    assert_eq!(digits_of(0, 10), vec!['0']);
    assert_eq!(digits_of(907, 10), vec!['9', '0', '7']);
    assert_eq!(digits_of(0xBEEF, 16), vec!['B', 'E', 'E', 'F']);
    assert_eq!(digits_of(5, 2), vec!['1', '0', '1']);
}

#[test]
fn title_id_text() {
    assert_eq!(TitleID::mii_maker_usa().to_string(), "00050010-1004A100");
    assert_eq!(TitleID::from_u64(0xA).to_string(), "00000000-0000000A");
    assert_eq!(TitleID::mii_maker_jpn().into_u64(), 0x00050010_1004A000);
    assert_eq!(TitleID::mii_maker_eur().into_u64(), 0x00050010_1004A200);
}

#[test]
fn one_second_is_a_quarter_bus_clock_of_ticks() {
    let t = SystemTime::from_duration_nanos(1_000_000_000, BUS_CLOCK);
    assert_eq!(t.ticks(), 62_156_250);
    assert_eq!(t.to_duration_nanos(BUS_CLOCK), 1_000_000_000);
}

#[test]
fn short_spans_round_down_to_whole_ticks() {
    assert_eq!(SystemTime::from_duration_nanos(10, BUS_CLOCK).ticks(), 0);
    assert_eq!(SystemTime::from_ticks(1).to_duration_nanos(BUS_CLOCK), 16);
}

#[test]
fn sub_undoes_add() {
    let t = SystemTime::from_ticks(1_000);
    let later = t.add_nanos(2_000_000, BUS_CLOCK);
    assert_eq!(later.ticks(), 1_000 + 124_312);
    assert_eq!(later.sub_nanos(2_000_000, BUS_CLOCK), t);
}

#[test]
fn duration_since_needs_an_earlier_time() {
    let a = SystemTime::from_ticks(62_156_250);
    let b = SystemTime::from_ticks(124_312_500);
    assert_eq!(b.duration_since(a, BUS_CLOCK), Ok(1_000_000_000));
    assert_eq!(a.duration_since(b, BUS_CLOCK), Err(Error::EarlierIsLater));
    assert_eq!(a.duration_since(a, BUS_CLOCK), Err(Error::EarlierIsLater));
}

#[test]
fn startup_is_tick_zero() {
    assert_eq!(SystemTime::startup().ticks(), 0);
    assert_eq!(SystemTime::startup().to_duration_nanos(BUS_CLOCK), 0);
}

#[test]
fn span_round_trip_never_grows() {
    for nanos in [0u128, 1, 15, 16, 17, 999_999_999, 1_000_000_007, 250_000_000_000] {
        let back = SystemTime::from_duration_nanos(nanos, BUS_CLOCK).to_duration_nanos(BUS_CLOCK);
        assert!(back as u128 <= nanos);
    }
}
