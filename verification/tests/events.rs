use std::time::SystemTime;

use zoomies::events::clock_reading;
use zoomies::{AlertType, DatagramFormat, Event, EventTime, Priority};

/// The time of the system clock, as the library holds it.
fn event_time(time: SystemTime) -> EventTime {
    match time.duration_since(SystemTime::UNIX_EPOCH) {
        Ok(since) => EventTime::from_unix_seconds(since.as_secs()),
        Err(_) => EventTime::before_epoch(),
    }
}

#[test]
fn test_simple_event() {
    assert_eq!(
        Event::new().title("Chungus").text("Big Chungus").format(),
        "_e{7,11}:Chungus|Big Chungus"
    );
}

#[test]
fn test_event_with_all_stoppers() {
    assert_eq!(
        Event::new()
            .title("Chungus")
            .text("Big Chungus")
            .priority(Priority::Low)
            .timestamp(event_time(SystemTime::UNIX_EPOCH))
            .hostname("kevin")
            .agg_key("something_cool")
            .source_type_name("your_app")
            .alert_type(AlertType::Error)
            .format(),
        "_e{7,11}:Chungus|Big Chungus|d:0|h:kevin|k:something_cool|p:low|s:your_app|t:error"
    );
}

#[test]
fn empty_event_has_zero_lengths() {
    assert_eq!(Event::new().format(), "_e{0,0}:|");
}

#[test]
fn event_lengths_count_bytes_not_characters() {
    let event = Event::new().title("Zoë").text("日本語 ok");
    assert_eq!(event.format(), "_e{4,12}:Zoë|日本語 ok");
}

#[test]
fn event_fields_come_in_wire_order_whatever_the_order_of_the_setters() {
    let event = Event::new()
        .tags(vec![("env".to_string(), "prod".to_string())])
        .alert_type(AlertType::Warning)
        .source_type_name("nagios")
        .priority(Priority::Normal)
        .agg_key("deploys")
        .hostname("web-1")
        .timestamp(EventTime::from_unix_seconds(1_700_000_000))
        .text("done")
        .title("Deploy");
    assert_eq!(
        event.format(),
        "_e{6,4}:Deploy|done|d:1700000000|h:web-1|k:deploys|p:normal|s:nagios|t:warning|#env:prod"
    );
}

#[test]
fn event_alert_types() {
    let base = || Event::new().title("a").text("b");
    assert_eq!(base().alert_type(AlertType::Error).format(), "_e{1,1}:a|b|t:error");
    assert_eq!(base().alert_type(AlertType::Info).format(), "_e{1,1}:a|b|t:info");
    assert_eq!(base().alert_type(AlertType::Success).format(), "_e{1,1}:a|b|t:success");
    assert_eq!(base().alert_type(AlertType::Warning).format(), "_e{1,1}:a|b|t:warning");
}

#[test]
fn event_priorities() {
    let base = || Event::new().title("a").text("b");
    assert_eq!(base().priority(Priority::Low).format(), "_e{1,1}:a|b|p:low");
    assert_eq!(base().priority(Priority::Normal).format(), "_e{1,1}:a|b|p:normal");
}

#[test]
fn event_single_optional_fields() {
    let base = || Event::new().title("a").text("b");
    assert_eq!(base().hostname("h").format(), "_e{1,1}:a|b|h:h");
    assert_eq!(base().agg_key("k").format(), "_e{1,1}:a|b|k:k");
    assert_eq!(base().source_type_name("s").format(), "_e{1,1}:a|b|s:s");
    assert_eq!(
        base().timestamp(EventTime::from_unix_seconds(u64::MAX)).format(),
        "_e{1,1}:a|b|d:18446744073709551615"
    );
}

#[test]
fn event_tags_keep_their_order() {
    let tags = vec![
        ("b".to_string(), "2".to_string()),
        ("a".to_string(), "1".to_string()),
        ("b".to_string(), "3".to_string()),
    ];
    assert_eq!(
        Event::new().title("t").text("x").tags(tags).format(),
        "_e{1,1}:t|x|#b:2,a:1,b:3"
    );
    assert_eq!(Event::new().title("t").text("x").tags(vec![]).format(), "_e{1,1}:t|x");
}

#[test]
fn event_text_is_not_escaped() {
    assert_eq!(
        Event::new().title("a|b").text("line\nbreak").format(),
        "_e{3,10}:a|b|line\nbreak"
    );
}

#[test]
fn event_formats_the_same_twice() {
    let event = Event::new()
        .title("Chungus")
        .text("Big Chungus")
        .timestamp(EventTime::from_unix_seconds(42))
        .hostname("kevin");
    let first = event.format();
    let second = event.format();
    assert_eq!(first.as_bytes(), second.as_bytes());
    assert_eq!(first, "_e{7,11}:Chungus|Big Chungus|d:42|h:kevin");
}

#[test]
fn event_before_the_epoch_is_sent_with_the_clock() {
    let event = Event::new().title("a").text("b").timestamp(EventTime::before_epoch());
    assert_eq!(event.format_at(1234), "_e{1,1}:a|b|d:1234");
    let before = SystemTime::now().duration_since(SystemTime::UNIX_EPOCH).unwrap().as_secs();
    let text = event.format();
    let after = SystemTime::now().duration_since(SystemTime::UNIX_EPOCH).unwrap().as_secs();
    let sent: u64 = text.strip_prefix("_e{1,1}:a|b|d:").unwrap().parse().unwrap();
    assert!(before <= sent && sent <= after);
}

#[test]
fn event_at_a_given_clock_ignores_it_unless_before_the_epoch() {
    let event = Event::new().title("a").text("b").timestamp(EventTime::from_unix_seconds(7));
    assert_eq!(event.format_at(1234), "_e{1,1}:a|b|d:7");
    assert_eq!(Event::new().title("a").text("b").format_at(1234), "_e{1,1}:a|b");
}

#[test]
fn event_time_formats_alone() {
    assert_eq!(EventTime::from_unix_seconds(0).format(), "|d:0");
    assert_eq!(EventTime::from_unix_seconds(10).format_at(99), "|d:10");
    assert_eq!(EventTime::before_epoch().format_at(99), "|d:99");
    let time = event_time(SystemTime::UNIX_EPOCH - std::time::Duration::from_secs(5));
    assert_eq!(time.format_at(3), "|d:3");
}

#[test]
fn absent_part_formats_as_nothing() {
    let none: Option<Priority> = None;
    assert_eq!(none.format(), "");
    assert_eq!(Some(Priority::Low).format(), "|p:low");
    assert_eq!(Some(&AlertType::Info).format(), "|t:info");
}

#[test]
fn clock_before_the_epoch_reads_as_the_epoch() {
    assert_eq!(clock_reading(Some(1234)), 1234);
    assert_eq!(clock_reading(Some(0)), 0);
    assert_eq!(clock_reading(None), 0);
}
