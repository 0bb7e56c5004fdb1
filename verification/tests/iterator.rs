use babeltrace1::ctf::Event;
use babeltrace1::{Context, Format};

fn empty_session_iterator() -> babeltrace1::ctf::Iterator {
    let ctx = Context::new(true).unwrap();
    ctx.ctf_iter(true).expect("the native layer yielded a cursor")
}

#[test]
fn empty_context_iterator_yields_end_at_once() {
    // A session with no registered traces has nothing at the cursor:
    // the first read yields end-of-sequence, with no fault and no error.
    let mut it = empty_session_iterator();
    assert!(!it.needs_advance());
    let r = it.next(0, None);
    assert!(r.is_none());
}

#[test]
fn first_retrieval_reads_without_advancing() {
    let mut it = empty_session_iterator();
    assert!(!it.needs_advance());
    let got = it.next(0, Some(Event::new(String::from("first"), 1)));
    assert_eq!(got.unwrap().name(), "first");
    assert!(it.needs_advance());
}

#[test]
fn later_retrievals_advance_first() {
    let mut it = empty_session_iterator();
    it.next(0, Some(Event::new(String::from("first"), 1)));
    let got = it.next(0, Some(Event::new(String::from("second"), 2)));
    assert_eq!(got.unwrap().timestamp().unwrap(), 2);
}

#[test]
fn failed_advance_ends_the_sequence() {
    let mut it = empty_session_iterator();
    it.next(0, Some(Event::new(String::from("only"), 1)));
    let done = it.next(-1, Some(Event::new(String::from("stale"), 3)));
    assert!(done.is_none());
}

#[test]
fn cursor_releases_once() {
    let mut it = empty_session_iterator();
    assert!(it.is_alive());
    it.release();
    assert!(!it.is_alive());
}
