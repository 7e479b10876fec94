use agendrr::event::Event;
use agendrr::handlers::{
    default_handlers, linked_agenda_entry, render_event, CalendlyEventHandler, DefaultEventHandler,
    EventHandler, InterviewEventHandler, MappedEventHandler, NameError, OneToOneEventHandler,
    RegularEventHandler, split_name,
};
use agendrr::time::StartTime;

fn nine_am() -> StartTime {
    StartTime::new(2024, 12, 5, 9, 0).unwrap()
}

#[test]
fn test_handles_calendly_event() {
    let handler = CalendlyEventHandler::build("Jon");
    let event = Event {
        name: "John Smith and Jon Seager".to_string(),
        start_time: nine_am(),
        ..Default::default()
    };
    let result = handler.handle(&event).unwrap();
    assert_eq!(result, "- **0900**: [[John Smith#2024-12-05|Jon/John]]");
}

#[test]
fn test_ignores_non_calendly_event() {
    let handler = CalendlyEventHandler::build("Jon");
    let event = Event {
        name: "Regular Meeting".to_string(),
        start_time: StartTime::new(2025, 3, 14, 15, 9).unwrap(),
        ..Default::default()
    };
    assert!(handler.handle(&event).is_none());
}

#[test]
fn test_handles_single_name() {
    let handler = CalendlyEventHandler::build("Jon");
    let event = Event {
        name: "Mohammad and Jon Seager".to_string(),
        start_time: nine_am(),
        ..Default::default()
    };
    let result = handler.handle(&event).unwrap();
    assert_eq!(result, "- **0900**: [[Mohammad#2024-12-05|Jon/Mohammad]]");
}

#[test]
fn calendly_takes_longest_guest_on_first_line() {
    let handler = CalendlyEventHandler::build("Jon");
    let event = Event {
        name: "A and Jon Seager and Jon Seager sync".to_string(),
        start_time: nine_am(),
        ..Default::default()
    };
    assert_eq!(
        handler.handle(&event).unwrap(),
        "- **0900**: [[A and Jon Seager#2024-12-05|Jon/A]]"
    );
    let multiline = Event {
        name: "X\nY and Jon Seager".to_string(),
        start_time: nine_am(),
        ..Default::default()
    };
    assert!(handler.handle(&multiline).is_none());
    let empty_guest = Event { name: " and Jon Seager".to_string(), ..Default::default() };
    assert!(handler.handle(&empty_guest).is_none());
}

#[test]
fn test_default_handler() {
    let handler = DefaultEventHandler::build();
    let event = Event {
        name: "This is some rando event".to_string(),
        start_time: nine_am(),
        ..Default::default()
    };
    assert_eq!(handler.handle(&event), Some("- **0900**: This is some rando event".to_string()));
}

fn interview_event(name: &str, description: &str, attendees: Vec<&str>) -> Event {
    Event {
        name: name.to_string(),
        description: description.to_string(),
        start_time: nine_am(),
        attendees: attendees.into_iter().map(|s| s.to_string()).collect(),
        ..Default::default()
    }
}

#[test]
fn test_handle_scheduler_event() {
    let handler = InterviewEventHandler::build();
    let event = interview_event(
        "Please interview a candidate for Software Engineer",
        "Please interview John Doe.",
        vec!["schedule@rose.greenhouse.io"],
    );
    assert_eq!(
        handler.handle(&event),
        Some("- **0900**: [[202412050900-john-doe|John Doe Interview Notes]]".to_string())
    );
}

#[test]
fn test_handle_greenhouse_event() {
    let handler = InterviewEventHandler::build();
    let event = interview_event(
        "Please interview John Doe for Software Engineer",
        "",
        vec!["schedule@rose.greenhouse.io"],
    );
    assert_eq!(
        handler.handle(&event),
        Some("- **0900**: [[202412050900-john-doe|John Doe Interview Notes]]".to_string())
    );
}

#[test]
fn test_handle_invalid_event() {
    let handler = InterviewEventHandler::build();
    let event = interview_event("Some other event", "", vec!["schedule@rose.greenhouse.io"]);
    assert_eq!(handler.handle(&event), None);
}

#[test]
fn interview_needs_scheduler_attendee() {
    let handler = InterviewEventHandler::build();
    let event = interview_event("Please interview John Doe for Software Engineer", "", vec!["a@x.com"]);
    assert_eq!(handler.handle(&event), None);
}

#[test]
fn interview_reads_later_description_line() {
    let handler = InterviewEventHandler::build();
    let event = interview_event(
        "Please interview a candidate for SRE",
        "Hello\r\nPlease interview Nope.\r\nPlease interview Ada McLean-Smith.\nBye",
        vec!["schedule@rose.greenhouse.io"],
    );
    assert_eq!(
        handler.handle(&event),
        Some("- **0900**: [[202412050900-ada-mclean-smith|Ada McLean-Smith Interview Notes]]".to_string())
    );
}

#[test]
fn interview_scheduler_title_without_description_match_does_not_fall_back() {
    let handler = InterviewEventHandler::build();
    let event = interview_event(
        "Please interview a candidate for Software Engineer",
        "No candidate here",
        vec!["schedule@rose.greenhouse.io"],
    );
    assert_eq!(handler.handle(&event), None);
}

#[test]
fn greenhouse_takes_last_for() {
    let handler = InterviewEventHandler::build();
    let event = interview_event(
        "Please interview Jo For for Engineer for Tools",
        "",
        vec!["schedule@rose.greenhouse.io"],
    );
    assert_eq!(
        handler.handle(&event),
        Some("- **0900**: [[202412050900-jo-for-for-engineer|Jo For for Engineer Interview Notes]]".to_string())
    );
}

#[test]
fn test_mapped_event() {
    let handler = MappedEventHandler::build(vec![("event1".to_string(), "note1".to_string())]);
    let event = Event { name: "event1".to_string(), start_time: nine_am(), ..Default::default() };
    assert_eq!(handler.handle(&event).unwrap(), "- **0900**: [[note1#2024-12-05|note1]]");
}

#[test]
fn test_unmapped_event() {
    let handler = MappedEventHandler::build(vec![]);
    let event = Event { name: "event1".to_string(), ..Default::default() };
    assert!(handler.handle(&event).is_none());
}

fn one_to_one_handler() -> OneToOneEventHandler {
    OneToOneEventHandler::build("John", "john.doe@example.com").unwrap()
}

#[test]
fn test_valid_one_to_one() {
    let handler = one_to_one_handler();
    let event = Event {
        attendees: vec!["jane.doe@example.com".to_string()],
        start_time: nine_am(),
        ..Default::default()
    };
    assert_eq!(
        handler.handle(&event),
        Some("- **0900**: [[Jane Doe#2024-12-05|John/Jane]]".to_string())
    );
}

#[test]
fn test_invalid_one_to_one() {
    let handler = one_to_one_handler();
    let event = Event {
        attendees: vec!["jane.doe@example.com".to_string(), "joe.bloggs@example.com".to_string()],
        start_time: nine_am(),
        ..Default::default()
    };
    assert!(!handler.valid_for(&event));
}

#[test]
fn test_parse_name_from_email() {
    let handler = one_to_one_handler();
    let (first_name, full_name) = handler.parse_name_from_email("jane.doe@example.com").unwrap();
    assert_eq!(first_name, "Jane");
    assert_eq!(full_name, "Jane Doe");
}

#[test]
fn test_parse_name_from_external_email() {
    let handler = one_to_one_handler();
    assert!(handler.parse_name_from_email("jane.doe@another.com").is_err());
}

#[test]
fn one_to_one_errors() {
    let handler = one_to_one_handler();
    assert_eq!(handler.parse_name_from_email("jane.doe@other.com"), Err(NameError::ExternalDomain));
    assert_eq!(handler.parse_name_from_email("jane@example.com"), Err(NameError::MissingDot));
    assert_eq!(handler.parse_name_from_email("not an email"), Err(NameError::InvalidEmail));
    assert!(OneToOneEventHandler::build("John", "nope").is_err());
    let cross = Event {
        attendees: vec!["jane.doe@other.com".to_string()],
        start_time: nine_am(),
        ..Default::default()
    };
    assert_eq!(handler.handle(&cross), None);
}

#[test]
fn split_name_reads_parts() {
    assert_eq!(
        split_name("example.com", "mary.ann.lee@example.com"),
        Ok(("mary".to_string(), "ann.lee".to_string()))
    );
    assert_eq!(split_name("example.com", "mary"), Err(NameError::MissingDomain));
}

#[test]
fn test_valid_regular_event() {
    let handler = RegularEventHandler::build(vec!["Some Event".to_string(), "Some Other Event".to_string()]);
    let event = Event { name: "Some Event".to_string(), start_time: nine_am(), ..Default::default() };
    assert_eq!(handler.handle(&event).unwrap(), "- **0900**: [[Some Event#2024-12-05|Some Event]]");
}

#[test]
fn test_invalid_regular_event() {
    let handler = RegularEventHandler::build(vec!["Some Event".to_string(), "Some Other Event".to_string()]);
    let event = Event { name: "Jon / Joe - Weekly".to_string(), start_time: nine_am(), ..Default::default() };
    assert!(handler.handle(&event).is_none());
}

#[test]
fn linked_entry_pads_fields() {
    let t = StartTime::new(987, 1, 2, 3, 4).unwrap();
    assert_eq!(linked_agenda_entry(&t, "N", "A"), "- **0304**: [[N#0987-01-02|A]]");
}

fn chain() -> Vec<EventHandler> {
    default_handlers(
        vec!["Standup".to_string()],
        vec![("Standup".to_string(), "Daily".to_string()), ("1:1".to_string(), "One".to_string())],
        "Jon",
        "jon.seager@example.com",
    )
    .unwrap()
}

#[test]
fn chain_picks_first_applicable_handler() {
    let hs = chain();
    let regular = Event { name: "Standup".to_string(), start_time: nine_am(), ..Default::default() };
    assert_eq!(render_event(&regular, &hs).unwrap(), "- **0900**: [[Standup#2024-12-05|Standup]]");
    let mapped = Event { name: "1:1".to_string(), start_time: nine_am(), ..Default::default() };
    assert_eq!(render_event(&mapped, &hs).unwrap(), "- **0900**: [[One#2024-12-05|One]]");
    let interview = interview_event(
        "Please interview John Doe for Software Engineer",
        "",
        vec!["schedule@rose.greenhouse.io"],
    );
    assert_eq!(
        render_event(&interview, &hs).unwrap(),
        "- **0900**: [[202412050900-john-doe|John Doe Interview Notes]]"
    );
    let one = Event {
        name: "Ann and Jon Seager".to_string(),
        attendees: vec!["jane.doe@example.com".to_string()],
        start_time: nine_am(),
        ..Default::default()
    };
    assert_eq!(render_event(&one, &hs).unwrap(), "- **0900**: [[Jane Doe#2024-12-05|Jon/Jane]]");
    let calendly = Event {
        name: "Ann Lee and Jon Seager".to_string(),
        attendees: vec!["jane.doe@other.com".to_string()],
        start_time: nine_am(),
        ..Default::default()
    };
    assert_eq!(render_event(&calendly, &hs).unwrap(), "- **0900**: [[Ann Lee#2024-12-05|Jon/Ann]]");
    let plain = Event { name: "Lunch".to_string(), start_time: nine_am(), ..Default::default() };
    assert_eq!(render_event(&plain, &hs).unwrap(), "- **0900**: Lunch");
    assert_eq!(render_event(&plain, &vec![]), None);
}

#[test]
fn default_handlers_rejects_invalid_user_email() {
    assert_eq!(default_handlers(vec![], vec![], "Jon", "jon").err(), Some(NameError::InvalidEmail));
}

#[test]
fn cross_domain_one_to_one_falls_through_to_default() {
    let hs = default_handlers(vec![], vec![], "John", "john.doe@example.com").unwrap();
    let event = Event {
        name: "Sync".to_string(),
        attendees: vec!["jane.doe@other.com".to_string()],
        start_time: nine_am(),
        ..Default::default()
    };
    assert_eq!(render_event(&event, &hs), Some("- **0900**: Sync".to_string()));
}

#[test]
fn mapped_table_is_kept() {
    let handler = MappedEventHandler::build(vec![("a".to_string(), "b".to_string())]);
    assert_eq!(handler.table(), &vec![("a".to_string(), "b".to_string())]);
}
