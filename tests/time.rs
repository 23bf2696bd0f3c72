use ogle::time_wrapper::Duration;
use ogle::time_wrapper::Instant;

#[test]
fn print_instant() {
    let epoch = Instant::default();
    assert_eq!(epoch.to_text(), "1970-01-01 00:00:00");
}

#[test]
fn basic_duration() {
    assert_eq!(Duration::seconds(10).num_seconds(), 10);
    assert_eq!(Duration::milliseconds(10).num_milliseconds(), 10);
    assert_eq!(Instant::default().add(&Duration::default()), Instant::default());
}

#[test]
fn basic_instant() {
    let ten = Duration::seconds(10);
    let now = Instant::from_millis(1_700_000_000_000);
    let now2 = Instant::from_millis(1_700_000_000_500);
    assert!(now2.sub(&now).num_milliseconds() < ten.num_milliseconds());
    let now3 = now2.add(&ten);
    assert!(now3.millis() > now2.millis());
}

#[test]
fn instant_text_of_a_known_date() {
    // 2023-11-14 22:13:20 UTC
    assert_eq!(Instant::from_millis(1_700_000_000_000).to_text(), "2023-11-14 22:13:20");
    assert_eq!(Instant::from_millis(-1000).to_text(), "1969-12-31 23:59:59");
}

#[test]
fn duration_seconds_round_towards_zero() {
    assert_eq!(Duration::milliseconds(1999).num_seconds(), 1);
    assert_eq!(Duration::milliseconds(-1999).num_seconds(), -1);
    assert_eq!(Duration::milliseconds(-999).num_seconds(), 0);
}

#[test]
fn instant_incr_and_clamp() {
    let mut t = Instant::default();
    let before = t.incr();
    assert_eq!(before, Instant::default());
    assert_eq!(t.millis(), 1000);
    let far = Instant::from_millis(ogle::time_wrapper::MAX_INSTANT_MILLIS);
    assert_eq!(far.add(&Duration::seconds(1)).millis(), ogle::time_wrapper::MAX_INSTANT_MILLIS);
}

#[test]
fn instant_text_at_both_ends_of_the_range() {
    assert_eq!(ogle::time_wrapper::MAX_INSTANT_MILLIS, 10i64.pow(15));
    let top = Instant::from_millis(ogle::time_wrapper::MAX_INSTANT_MILLIS).to_text();
    assert_eq!(top, "+33658-09-27 01:46:40");
    let bottom = Instant::from_millis(-ogle::time_wrapper::MAX_INSTANT_MILLIS).to_text();
    assert_eq!(bottom, "-29719-04-05 22:13:20");
}

#[test]
fn instant_shown_on_a_local_clock() {
    let summer = Instant::from_millis_local(0, 2 * 3_600_000);
    assert_eq!(summer.to_text(), "1970-01-01 02:00:00");
    let winter = Instant::from_millis_local(3_600_000, 3_600_000);
    // One hour later in UTC, though both clocks read 02:00.
    assert_eq!(winter.to_text(), "1970-01-01 02:00:00");
    assert_eq!(winter.sub(&summer).num_milliseconds(), 3_600_000);
    assert_eq!(summer.add(&Duration::seconds(60)).to_text(), "1970-01-01 02:01:00");
}
