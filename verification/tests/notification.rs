use water_reminder::notification::hourly_reminder;
use water_reminder::notification::send_water_reminder;
use water_reminder::notification::HOURLY_BODY;
use water_reminder::notification::HOURLY_TITLE;

#[test]
fn manual_trigger_requests_title_and_body() {
    let request = send_water_reminder("Test", "Hello");
    assert_eq!(request.title(), "Test");
    assert_eq!(request.body(), "Hello");
}

#[test]
fn manual_trigger_does_not_swap_title_and_body() {
    let request = send_water_reminder("title", "body");
    assert_ne!(request.title(), "body");
    assert_ne!(request.body(), "title");
}

#[test]
fn manual_trigger_takes_any_text() {
    let long = "x".repeat(10_000);
    let cases = [
        ("", ""),
        ("", "only a body"),
        ("only a title", ""),
        ("  spaces kept  ", "\ttabs\nand lines\n"),
        ("喝水提醒", "现在是整点，该喝水了！"),
        ("emoji \u{1F4A7}", "combining e\u{301}"),
        (long.as_str(), long.as_str()),
    ];
    for (title, body) in cases {
        let request = send_water_reminder(title, body);
        assert_eq!(request.title(), title);
        assert_eq!(request.body(), body);
    }
}

#[test]
fn repeated_manual_trigger_is_answered_every_time() {
    let first = send_water_reminder("Test", "Hello");
    let second = send_water_reminder("Test", "Hello");
    let third = send_water_reminder("Test", "Hello");
    for request in [&first, &second, &third] {
        assert_eq!(request.title(), "Test");
        assert_eq!(request.body(), "Hello");
    }
    assert_eq!(first, second);
    assert_eq!(second, third);
}

#[test]
fn manual_trigger_does_not_remember_earlier_calls() {
    let first = send_water_reminder("one", "first body");
    let second = send_water_reminder("two", "second body");
    assert_eq!(first.title(), "one");
    assert_eq!(first.body(), "first body");
    assert_eq!(second.title(), "two");
    assert_eq!(second.body(), "second body");
    assert_ne!(first, second);
}

#[test]
fn hourly_reminder_has_the_fixed_text() {
    let request = hourly_reminder();
    assert_eq!(request.title(), "water reminder");
    assert_eq!(request.body(), "it's the top of the hour \u{2014} drink water!");
}

#[test]
fn hourly_reminder_text_is_the_two_constants() {
    assert_eq!(HOURLY_TITLE, "water reminder");
    assert_eq!(HOURLY_BODY, "it's the top of the hour \u{2014} drink water!");
    let request = hourly_reminder();
    assert_eq!(request.title(), HOURLY_TITLE);
    assert_eq!(request.body(), HOURLY_BODY);
}

#[test]
fn manual_trigger_with_the_hourly_text_equals_the_hourly_reminder() {
    assert_eq!(send_water_reminder(HOURLY_TITLE, HOURLY_BODY), hourly_reminder());
}

#[test]
fn request_shows_both_texts_when_printed_for_debugging() {
    let printed = format!("{:?}", send_water_reminder("Test", "Hello"));
    assert!(printed.contains("Test"));
    assert!(printed.contains("Hello"));
}
