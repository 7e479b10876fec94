use agendrr::agenda::agenda;
use agendrr::event::Event;
use agendrr::filters::{default_filters, excluded_by_any, FilterError, NamePattern};
use agendrr::handlers::default_handlers;
use agendrr::time::StartTime;

fn at(h: u32, m: u32, name: &str, color: &str) -> Event {
    Event {
        name: name.to_string(),
        color: color.to_string(),
        start_time: StartTime::new(2024, 12, 5, h, m).unwrap(),
        ..Default::default()
    }
}

#[test]
fn filters_exclude_on_colour_or_name() {
    let fs = default_filters(vec!["11".to_string()], &vec!["^Focus".to_string(), "(?i)lunch".to_string()]).unwrap();
    assert!(excluded_by_any(&fs, &at(9, 0, "Anything", "11")));
    assert!(!excluded_by_any(&fs, &at(9, 0, "Anything", "1")));
    assert!(excluded_by_any(&fs, &at(9, 0, "Focus time", "none")));
    assert!(!excluded_by_any(&fs, &at(9, 0, "No Focus", "none")));
    assert!(excluded_by_any(&fs, &at(9, 0, "Team LUNCH out", "none")));
}

#[test]
fn filters_reject_invalid_pattern() {
    assert_eq!(
        default_filters(vec![], &vec!["ok".to_string(), "(".to_string()]).err(),
        Some(FilterError::InvalidPattern(1))
    );
    assert!(NamePattern::new("a+").unwrap().matches("baaa"));
    assert!(!NamePattern::new("a+").unwrap().matches("bbb"));
}

#[test]
fn agenda_keeps_order_and_drops_excluded() {
    let fs = default_filters(vec!["11".to_string()], &vec!["^Focus".to_string()]).unwrap();
    let hs = default_handlers(vec![], vec![], "Jon", "jon.seager@example.com").unwrap();
    let events = vec![
        at(8, 5, "Breakfast", "none"),
        at(9, 0, "Focus block", "none"),
        at(10, 30, "Hidden", "11"),
        at(13, 45, "Planning", "none"),
    ];
    assert_eq!(
        agenda(&fs, &hs, &events),
        vec!["- **0805**: Breakfast".to_string(), "- **1345**: Planning".to_string()]
    );
    assert!(agenda(&fs, &hs, &vec![]).is_empty());
}
