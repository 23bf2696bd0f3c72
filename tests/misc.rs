use ogle::misc::ofmt_helper;
use ogle::misc::ofmt_timeless_helper;
use ogle::time_wrapper::Instant;

#[test]
fn test_ofmt_helper() {
    let timestamp = Instant::default();
    assert_eq!(
        ofmt_helper(&timestamp, "test line"),
        format!("<O> {} test line", timestamp.to_text())
    );
    assert_eq!(ofmt_helper(&timestamp, "test line"), "<O> 1970-01-01 00:00:00 test line");
}

#[test]
fn test_ofmt_macro() {
    let timestamp = Instant::default();
    let formatted = ofmt_helper(&timestamp, &format!("hello {}", 123));
    assert_eq!(formatted, format!("<O> {} hello 123", timestamp.to_text()));
}

#[test]
fn test_ofmt_timeless_helper() {
    assert_eq!(ofmt_timeless_helper("timeless test"), "<O> timeless test");
}

#[test]
fn test_ofmt_timeless_macro() {
    let formatted = ofmt_timeless_helper(&format!("value: {}", 42.5));
    assert_eq!(formatted, "<O> value: 42.5");
}
