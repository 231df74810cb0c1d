use ratputer::clock::{
    civil_from_days, date_time, days_from_civil, eu_summer_time, last_sunday, local_hh_mm,
    local_seconds, reached, WallClock,
};
use ratputer::storage::{ClockConfig, DstRule};

fn config(minutes: i16, dst: DstRule) -> ClockConfig {
    ClockConfig {
        utc_offset_minutes: minutes,
        dst,
        ntp_server: String::from("pool.ntp.org"),
    }
}

#[test]
fn date_time_of_the_epoch() {
    let time = date_time(0);
    assert_eq!((time.year, time.month, time.day), (1970, 1, 1));
    assert_eq!((time.hour, time.minute, time.second), (0, 0, 0));
}

#[test]
fn date_time_of_a_leap_day() {
    // 2024-02-29 12:34:56 UTC
    let time = date_time(1_709_210_096);
    assert_eq!((time.year, time.month, time.day), (2024, 2, 29));
    assert_eq!((time.hour, time.minute, time.second), (12, 34, 56));
}

#[test]
fn date_time_before_the_epoch() {
    let time = date_time(-1);
    assert_eq!((time.year, time.month, time.day), (1969, 12, 31));
    assert_eq!((time.hour, time.minute, time.second), (23, 59, 59));
}

#[test]
fn days_and_dates_are_inverse() {
    for days in [-719_468, -1, 0, 59, 60, 11_016, 19_782, 20_000, 100_000] {
        let (year, month, day) = civil_from_days(days);
        assert_eq!(days_from_civil(year, month, day), days);
    }
    assert_eq!(days_from_civil(2000, 3, 1), 11_017);
    assert_eq!(civil_from_days(11_016), (2000, 2, 29));
}

#[test]
fn years_have_their_length() {
    assert_eq!(days_from_civil(1901, 1, 1) - days_from_civil(1900, 1, 1), 365);
    assert_eq!(days_from_civil(2001, 1, 1) - days_from_civil(2000, 1, 1), 366);
    assert_eq!(days_from_civil(2025, 1, 1) - days_from_civil(2024, 1, 1), 366);
    assert_eq!(days_from_civil(2024, 1, 1) - days_from_civil(2023, 1, 1), 365);
}

#[test]
fn last_sundays_of_2024() {
    assert_eq!(last_sunday(2024, 3), days_from_civil(2024, 3, 31));
    assert_eq!(last_sunday(2024, 10), days_from_civil(2024, 10, 27));
    assert_eq!(last_sunday(2023, 12), days_from_civil(2023, 12, 31));
}

#[test]
fn summer_time_changes_at_one_utc() {
    // 2024-03-31 01:00 and 2024-10-27 01:00 UTC
    assert!(!eu_summer_time(1_711_846_799));
    assert!(eu_summer_time(1_711_846_800));
    assert!(eu_summer_time(1_729_990_799));
    assert!(!eu_summer_time(1_729_990_800));
}

#[test]
fn local_time_has_offset_and_summer() {
    let eu = config(60, DstRule::Eu);
    let fixed = config(-330, DstRule::Off);
    assert_eq!(local_seconds(1_704_067_200, &eu), 1_704_070_800);
    assert_eq!(local_seconds(1_719_792_000, &eu), 1_719_799_200);
    assert_eq!(local_seconds(1_719_792_000, &fixed), 1_719_772_200);
    assert_eq!(local_hh_mm(1_719_792_000, &eu), (2, 0));
    assert_eq!(local_hh_mm(1_719_792_000, &fixed), (18, 30));
}

#[test]
fn wall_clock_counts_from_its_last_setting() {
    let mut clock = WallClock::default();
    assert!(!clock.is_synced());
    assert_eq!(clock.unix_now(5), None);
    clock.set(1_700_000_000, 10_000_000);
    assert!(clock.is_synced());
    assert_eq!(clock.unix_now(10_999_999), Some(1_700_000_000));
    assert_eq!(clock.unix_now(3_610_000_000), Some(1_700_003_600));
    clock.set(1_800_000_000, 20_000_000);
    assert_eq!(clock.unix_now(21_000_000), Some(1_800_000_001));
}

#[test]
fn timer_wraps_around() {
    assert!(reached(5, 5));
    assert!(reached(6, 5));
    assert!(!reached(4, 5));
    assert!(reached(3, u64::MAX - 2));
    assert!(!reached(u64::MAX - 2, 3));
}
