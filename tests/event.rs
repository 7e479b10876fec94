use agendrr::event::{trim_end_matches, Event};
use agendrr::time::StartTime;

fn suffixes() -> Vec<String> {
    vec![" - Weekly".to_string(), " - Monthly".to_string()]
}

#[test]
fn test_event_build_remove_suffixes() {
    let event = Event::build(
        "user@example.com",
        &suffixes(),
        StartTime::default(),
        "Team Meeting - Weekly".to_string(),
        Default::default(),
        Default::default(),
        vec!["colleague@example.com".to_string()],
    );
    assert_eq!(event.name, "Team Meeting");
}

#[test]
fn test_event_build_remove_user_from_attendees() {
    let event = Event::build(
        "user@example.com",
        &suffixes(),
        StartTime::default(),
        Default::default(),
        Default::default(),
        Default::default(),
        vec!["user@example.com".to_string(), "colleague@example.com".to_string()],
    );
    assert_eq!(event.attendees, vec!["colleague@example.com"]);
}

#[test]
fn build_strips_team_sync_weekly() {
    let event = Event::build(
        "user@x.com",
        &suffixes(),
        StartTime::default(),
        "Team Sync - Weekly".to_string(),
        String::new(),
        String::new(),
        vec![],
    );
    assert_eq!(event.name, "Team Sync");
}

#[test]
fn build_removes_user_keeps_order() {
    let event = Event::build(
        "user@x.com",
        &vec![],
        StartTime::default(),
        String::new(),
        String::new(),
        String::new(),
        vec!["user@x.com".to_string(), "a@x.com".to_string()],
    );
    assert_eq!(event.attendees, vec!["a@x.com".to_string()]);
}

#[test]
fn build_strips_every_suffix_in_turn() {
    let event = Event::build(
        "u@x.com",
        &suffixes(),
        StartTime::default(),
        "Planning - Monthly - Weekly - Weekly".to_string(),
        "body".to_string(),
        "5".to_string(),
        vec!["u@x.com".to_string(), "b@x.com".to_string(), "u@x.com".to_string(), "c@x.com".to_string()],
    );
    assert_eq!(event.name, "Planning");
    assert_eq!(event.description, "body");
    assert_eq!(event.color, "5");
    assert_eq!(event.attendees, vec!["b@x.com".to_string(), "c@x.com".to_string()]);
}

#[test]
fn trim_removes_repeated_suffix() {
    assert_eq!(trim_end_matches("xabab", "ab"), "x");
    assert_eq!(trim_end_matches("abab", "ab"), "");
    assert_eq!(trim_end_matches("abc", ""), "abc");
    assert_eq!(trim_end_matches("abc", "x"), "abc");
    let once = trim_end_matches("Sync - Weekly - Weekly", " - Weekly");
    assert_eq!(trim_end_matches(&once, " - Weekly"), once);
}

#[test]
fn start_time_rejects_invalid_dates() {
    assert!(StartTime::new(2024, 2, 29, 9, 0).is_some());
    assert!(StartTime::new(2023, 2, 29, 9, 0).is_none());
    assert!(StartTime::new(2024, 13, 1, 9, 0).is_none());
    assert!(StartTime::new(2024, 12, 5, 24, 0).is_none());
    assert!(StartTime::new(2024, 12, 5, 9, 60).is_none());
    assert!(StartTime::new(10000, 1, 1, 0, 0).is_none());
}

#[test]
fn build_repeats_passes_until_no_suffix_is_left() {
    let event = Event::build(
        "u@x.com",
        &suffixes(),
        StartTime::default(),
        "A - Weekly - Monthly".to_string(),
        String::new(),
        String::new(),
        vec![],
    );
    assert_eq!(event.name, "A");
}

#[test]
fn build_ignores_empty_suffix() {
    let event = Event::build(
        "u@x.com",
        &vec![String::new(), " - Weekly".to_string()],
        StartTime::default(),
        "Sync - Weekly".to_string(),
        String::new(),
        String::new(),
        vec![],
    );
    assert_eq!(event.name, "Sync");
}
