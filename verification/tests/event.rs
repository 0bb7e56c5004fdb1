use babeltrace1::ctf::{Event, Scope};
use babeltrace1::Error;

fn sample_event() -> Event {
    Event::new(String::from("sched_switch"), 42)
}

#[test]
fn name_reports_the_identifier() {
    let e = sample_event();
    assert_eq!(e.name(), "sched_switch");
}

#[test]
fn timestamp_returns_the_exact_clock_value() {
    let e = sample_event();
    assert_eq!(e.timestamp().unwrap(), 42);
    let top = Event::new(String::from("edge"), u64::MAX - 1);
    assert_eq!(top.timestamp().unwrap(), u64::MAX - 1);
}

#[test]
fn timestamp_fails_exactly_on_the_sentinel() {
    let e = Event::new(String::from("no_clock"), u64::MAX);
    assert!(matches!(e.timestamp(), Err(Error::InvalidTimestamp)));
}

#[test]
fn scope_codes_follow_the_native_enumeration() {
    assert_eq!(Scope::TracePacketHeader.code(), 0);
    assert_eq!(Scope::StreamPacketContext.code(), 1);
    assert_eq!(Scope::StreamEventHeader.code(), 2);
    assert_eq!(Scope::StreamEventContext.code(), 3);
    assert_eq!(Scope::EventContext.code(), 4);
    assert_eq!(Scope::EventFields.code(), 5);
}

#[test]
fn absent_region_fails_scope_resolution() {
    let e = sample_event();
    let r = e.get_top_level_scope(Scope::EventContext, false);
    assert!(matches!(r, Err(Error::GetEventScope)));
}

#[test]
fn resolved_region_keeps_its_scope() {
    let e = sample_event();
    let d = e.get_top_level_scope(Scope::StreamEventHeader, true).unwrap();
    assert_eq!(d.scope(), Scope::StreamEventHeader);
}

#[test]
fn absent_field_is_none_not_an_error() {
    let e = sample_event();
    let scope = e.get_top_level_scope(Scope::EventFields, true).unwrap();
    let r = e.get_field(&scope, "missing", false);
    assert!(r.is_none());
}

#[test]
fn found_field_stays_scope_bound() {
    let e = sample_event();
    let scope = e.get_top_level_scope(Scope::EventFields, true).unwrap();
    let d = e.get_field(&scope, "cpu_id", true).unwrap();
    assert_eq!(d.scope(), Scope::EventFields);
}

#[test]
fn typed_getter_returns_the_raw_value() {
    let e = sample_event();
    let scope = e.get_top_level_scope(Scope::EventFields, true).unwrap();
    let d = e.get_field(&scope, "cpu_id", true).unwrap();
    assert_eq!(d.get_u64(9, 0).unwrap(), 9);
    assert_eq!(d.get_i64(-9, 0).unwrap(), -9);
    assert_eq!(d.get_str(String::from("idle"), 0).unwrap(), "idle");
}

#[test]
fn typed_getter_fails_on_set_error_flag() {
    let e = sample_event();
    let scope = e.get_top_level_scope(Scope::EventFields, true).unwrap();
    let d = e.get_field(&scope, "cpu_id", true).unwrap();
    assert!(matches!(d.get_u64(9, -1), Err(Error::InvalidValueForField)));
    assert!(matches!(d.get_i64(9, -1), Err(Error::InvalidValueForField)));
    assert!(matches!(
        d.get_str(String::from("idle"), -1),
        Err(Error::InvalidValueForField)
    ));
}

#[test]
fn repeated_reads_of_one_field_are_identical() {
    let e = sample_event();
    let scope = e.get_top_level_scope(Scope::EventFields, true).unwrap();
    let d = e.get_field(&scope, "cpu_id", true).unwrap();
    assert_eq!(d.get_u64(77, 0).unwrap(), d.get_u64(77, 0).unwrap());
    assert_eq!(
        d.get_str(String::from("same"), 0).unwrap(),
        d.get_str(String::from("same"), 0).unwrap()
    );
}

#[test]
fn event_getter_resolves_the_default_scope() {
    let e = sample_event();
    assert_eq!(e.get_u64(None, "cpu_id", true, true, 3, 0).unwrap(), 3);
    assert_eq!(e.get_i64(None, "delta", true, true, -3, 0).unwrap(), -3);
    assert_eq!(
        e.get_string(None, "comm", true, true, String::from("bash"), 0).unwrap(),
        "bash"
    );
}

#[test]
fn event_getter_fails_when_default_scope_is_absent() {
    let e = sample_event();
    let r = e.get_u64(None, "cpu_id", false, true, 3, 0);
    assert!(matches!(r, Err(Error::GetEventScope)));
}

#[test]
fn event_getter_names_the_unknown_field() {
    let e = sample_event();
    let r = e.get_u64(None, "cpu_id", true, false, 3, 0);
    assert!(matches!(r, Err(Error::UnknownField(n)) if n == "cpu_id"));
    let scope = e.get_top_level_scope(Scope::EventFields, true).unwrap();
    let r = e.get_string(Some(&scope), "comm", false, false, String::new(), 0);
    assert!(matches!(r, Err(Error::UnknownField(n)) if n == "comm"));
}

#[test]
fn event_getter_with_given_scope_skips_resolution() {
    let e = sample_event();
    let scope = e.get_top_level_scope(Scope::StreamEventContext, true).unwrap();
    // With a scope at hand, a failed default resolution cannot matter.
    assert_eq!(e.get_u64(Some(&scope), "cpu_id", false, true, 11, 0).unwrap(), 11);
}

#[test]
fn event_getter_reports_the_error_flag() {
    let e = sample_event();
    let r = e.get_i64(None, "delta", true, true, 5, -1);
    assert!(matches!(r, Err(Error::InvalidValueForField)));
}
