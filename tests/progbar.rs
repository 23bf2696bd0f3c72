use ogle::progbar::get_prefix;
use ogle::progbar::progbar_running;
use ogle::progbar::progbar_sleeping;
use ogle::progbar::spinner_get;
use ogle::time_wrapper::Duration;
use ogle::time_wrapper::Instant;

#[test]
fn spinner() {
    let spins = (1..6)
        .scan('/', |spinner, _| Some(spinner_get(spinner)))
        .collect::<Vec<_>>();
    assert_eq!(spins, vec!['-', '\\', '|', '/', '-']);
}

#[test]
fn prefix_counts_unchanged_runs() {
    assert_eq!(get_prefix(0), "");
    assert_eq!(get_prefix(12), "unchanged 12, ");
}

#[test]
fn sleeping_countdown() {
    let now = Instant::from_millis(10_000);
    let deadline = Instant::from_millis(12_500);
    assert_eq!(
        progbar_sleeping(0, &Duration::seconds(5), &now, &deadline, '|'),
        "sleeping for 3s [|]"
    );
    assert_eq!(
        progbar_sleeping(2, &Duration::seconds(1), &now, &deadline, '/'),
        "unchanged 2, sleeping [/]"
    );
}

#[test]
fn running_without_previous_duration() {
    let t = Instant::from_millis(0);
    assert_eq!(
        progbar_running(80, 0, &t, &t, None, &Duration::milliseconds(250), '-'),
        "running [-]"
    );
}

#[test]
fn running_bar_half_way() {
    let start = Instant::from_millis(0);
    let now = Instant::from_millis(1000);
    // 2000 ms previous run, 250 ms refresh: 8 slots, half of them filled.
    assert_eq!(
        progbar_running(80, 0, &now, &start, Some(Duration::milliseconds(2000)), &Duration::milliseconds(250), '-'),
        "running [===>    ] [-]"
    );
}

#[test]
fn running_bar_overdue_and_clamped() {
    let start = Instant::from_millis(0);
    let now = Instant::from_millis(5000);
    assert_eq!(
        progbar_running(80, 0, &now, &start, Some(Duration::milliseconds(2000)), &Duration::milliseconds(250), '/'),
        "running [========] [/]"
    );
    // Width 24 leaves 24 - (9 + 5 + 1) = 9 slots of the 40 wanted.
    assert_eq!(
        progbar_running(24, 0, &start, &start, Some(Duration::milliseconds(10000)), &Duration::milliseconds(250), '|'),
        "running [>         ] [|]"
    );
}
