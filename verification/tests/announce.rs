use chime::announce::announce;
use chime::london::Instant;
use chime::london::MAX_SECS;
use chime::london::MIN_SECS;
use chrono::TimeZone;

fn instant_at(y: i32, mo: u32, d: u32, h: u32, mi: u32, s: u32) -> Instant {
    let utc = chrono::Utc.with_ymd_and_hms(y, mo, d, h, mi, s).unwrap();
    Instant { secs: utc.timestamp() }
}

#[test]
fn handles_midnight_gmt() {
    let midnight = instant_at(2018, 1, 2, 0, 0, 0);
    assert_eq!(announce(midnight), "It's midnight");
}

#[test]
fn handles_midnight_bst() {
    let midnight = instant_at(2018, 5, 1, 23, 0, 0);
    assert_eq!(announce(midnight), "It's midnight");
}

#[test]
fn handles_12hour_time_gmt() {
    let morning = instant_at(2018, 1, 2, 9, 8, 7);
    assert_eq!(announce(morning), "It's 9 o'clock (09:00)");
}

#[test]
fn handles_12hour_time_bst() {
    let morning = instant_at(2018, 5, 2, 8, 8, 7);
    assert_eq!(announce(morning), "It's 9 o'clock (09:00)");
}

#[test]
fn handles_repeated_hour_when_clocks_change() {
    // Clocks went back on 27 Oct 2019 at 2am summer time, which is 1am UTC

    // So UTC midnight is 1am summer time:
    let clock_goes_back = instant_at(2019, 10, 27, 0, 0, 0);
    assert_eq!(announce(clock_goes_back), "It's 1 o'clock (01:00)");

    // ...and an hour later it's 1am again:
    let an_hour_later = Instant { secs: clock_goes_back.secs + 3600 };
    assert_eq!(announce(an_hour_later), "It's 1 o'clock again (01:00)");

    // Another hour on and it's 2am:
    let two_hours_later = Instant { secs: an_hour_later.secs + 3600 };
    assert_eq!(announce(two_hours_later), "It's 2 o'clock (02:00)");
}

#[test]
fn same_instant_same_announcement() {
    let now = instant_at(2019, 10, 27, 1, 30, 0);
    assert_eq!(announce(now), announce(now));
}

#[test]
fn afternoon_drops_twelve_in_the_reading() {
    let afternoon = instant_at(2018, 1, 2, 13, 0, 0);
    assert_eq!(announce(afternoon), "It's 1 o'clock (13:00)");
}

#[test]
fn noon_reads_twelve() {
    let noon = instant_at(2018, 1, 2, 12, 30, 0);
    assert_eq!(announce(noon), "It's 12 o'clock (12:00)");
}

#[test]
fn late_evening_reads_eleven() {
    let evening = instant_at(2018, 1, 2, 23, 59, 59);
    assert_eq!(announce(evening), "It's 11 o'clock (23:00)");
}

#[test]
fn spring_forward_skips_an_hour() {
    // Clocks went forward on 31 Mar 2019 at 1am UTC: the London reading
    // jumps straight from 0:59 to 2:00, so no hour repeats.
    let just_before = instant_at(2019, 3, 31, 0, 59, 59);
    assert_eq!(announce(just_before), "It's midnight");

    let just_after = instant_at(2019, 3, 31, 1, 0, 0);
    assert_eq!(announce(just_after), "It's 2 o'clock (02:00)");
}

#[test]
fn accepts_timestamps_in_range() {
    let i = Instant::from_unix_seconds(1514854087).unwrap();
    assert_eq!(i.secs, 1514854087);
    assert!(Instant::from_unix_seconds(MIN_SECS).is_some());
    assert!(Instant::from_unix_seconds(MAX_SECS).is_some());
}

#[test]
fn refuses_timestamps_out_of_range() {
    assert!(Instant::from_unix_seconds(MAX_SECS + 1).is_none());
    assert!(Instant::from_unix_seconds(MIN_SECS - 1).is_none());
    assert!(Instant::from_unix_seconds(i64::MAX).is_none());
}
