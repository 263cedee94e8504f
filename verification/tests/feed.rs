use cellardoor::feed::event_record;
use cellardoor::feed::in_window;
use cellardoor::feed::parse_ical_datetime;
use cellardoor::feed::process;
use cellardoor::feed::select_events;
use cellardoor::feed::Event;
use cellardoor::feed::Property;

fn prop(name: &str, value: Option<&str>) -> Property {
    Property {
        name: name.to_string(),
        value: value.map(|v| v.to_string()),
    }
}

fn event(props: Vec<Property>) -> Event {
    Event { properties: props }
}

#[test]
fn process_picks_start_and_end() {
    let e = event(vec![
        prop("SUMMARY", Some("club night")),
        prop("DTSTART", Some("20240101T200000")),
        prop("DTEND", Some("20240101T230000")),
    ]);
    let (s, en) = process(&e).unwrap();
    assert_eq!(s, "20240101T200000");
    assert_eq!(en, "20240101T230000");
}

#[test]
fn process_needs_both_bounds() {
    let only_start = event(vec![prop("DTSTART", Some("20240101T200000"))]);
    assert!(process(&only_start).is_none());
    let only_end = event(vec![prop("DTEND", Some("20240101T230000"))]);
    assert!(process(&only_end).is_none());
    assert!(process(&event(vec![])).is_none());
}

#[test]
fn process_last_value_wins() {
    let e = event(vec![
        prop("DTSTART", Some("20240101T200000")),
        prop("DTEND", Some("20240101T230000")),
        prop("DTSTART", Some("20240102T200000")),
        prop("DTSTART", None),
    ]);
    let (s, _) = process(&e).unwrap();
    assert_eq!(s, "20240102T200000");
}

#[test]
fn parse_ical_datetime_exact() {
    assert_eq!(parse_ical_datetime("20240101T000000"), Some(1_704_067_200));
    assert!(parse_ical_datetime("not a date").is_none());
    assert!(parse_ical_datetime("2024-01-01T00:00:00").is_none());
}

#[test]
fn in_window_formula() {
    assert!(in_window(5, 15, 10, 20));
    assert!(!in_window(5, 10, 10, 20));
    assert!(!in_window(20, 30, 10, 20));
    assert!(in_window(0, 11, 10, 20));
}

#[test]
fn select_events_keeps_overlapping_in_order() {
    let now = parse_ical_datetime("20240101T000000").unwrap();
    let until = now + 7 * 24 * 60 * 60;
    let past = event(vec![
        prop("SUMMARY", Some("past")),
        prop("DTSTART", Some("20231201T200000")),
        prop("DTEND", Some("20231201T230000")),
    ]);
    let this_week = event(vec![
        prop("SUMMARY", Some("this week")),
        prop("DTSTART", Some("20240103T200000")),
        prop("DTEND", Some("20240103T230000")),
    ]);
    let also_this_week = event(vec![
        prop("SUMMARY", Some("also this week")),
        prop("DTSTART", Some("20240105T100000")),
        prop("DTEND", Some("20240105T120000")),
    ]);
    let far_future = event(vec![
        prop("SUMMARY", Some("far future")),
        prop("DTSTART", Some("20240301T200000")),
        prop("DTEND", Some("20240301T230000")),
    ]);
    let unparsable = event(vec![
        prop("DTSTART", Some("someday")),
        prop("DTEND", Some("later")),
    ]);
    let kept = select_events(
        vec![past, this_week, also_this_week, far_future, unparsable],
        now,
        until,
    );
    assert_eq!(kept.len(), 2);
    let (s0, _) = process(&kept[0]).unwrap();
    assert_eq!(s0, "20240103T200000");
    let (s1, _) = process(&kept[1]).unwrap();
    assert_eq!(s1, "20240105T100000");
}

#[test]
fn event_record_keeps_order_and_fills_gaps() {
    let e = event(vec![
        prop("SUMMARY", Some("club night")),
        prop("LOCATION", None),
    ]);
    let record = event_record(&e);
    assert_eq!(record.len(), 2);
    assert_eq!(record[0], ("SUMMARY".to_string(), "club night".to_string()));
    assert_eq!(record[1], ("LOCATION".to_string(), String::new()));
}
