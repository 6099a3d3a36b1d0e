//! Tests for the name-match predicate and the search loop.

use ble_central::discovery::{FetchOutcome, PeripheralProps};
use ble_central::errors::Error;
use ble_central::locator::{contains_bytes, locate_in, locate_step, LocateDecision, LocateResult};

fn advertising(name: &str) -> FetchOutcome {
    FetchOutcome::Fetched(PeripheralProps { local_name: Some(name.as_bytes().to_vec()) })
}

#[test]
fn substring_matches_inside_a_longer_name() {
    assert!(contains_bytes(b"FooBar", b"Foo"));
    assert!(contains_bytes(b"FooBar", b"Bar"));
    assert!(contains_bytes(b"FooBar", b"ooBa"));
    assert!(contains_bytes(b"FooBar", b"FooBar"));
}

#[test]
fn unrelated_name_does_not_match() {
    assert!(!contains_bytes(b"Bar", b"Foo"));
    assert!(!contains_bytes(b"foobar", b"Foo"));
    assert!(!contains_bytes(b"FoBar", b"Foo"));
}

#[test]
fn empty_request_matches_every_name() {
    assert!(contains_bytes(b"FooBar", b""));
    assert!(contains_bytes(b"", b""));
}

#[test]
fn request_longer_than_name_does_not_match() {
    assert!(!contains_bytes(b"Foo", b"FooBar"));
    assert!(!contains_bytes(b"", b"Foo"));
}

#[test]
fn matching_candidate_stops_the_search() {
    assert_eq!(locate_step(&advertising("FooBar"), b"Foo"), LocateDecision::Match);
}

#[test]
fn non_matching_candidate_continues_the_search() {
    assert_eq!(locate_step(&advertising("Bar"), b"Foo"), LocateDecision::Continue);
}

#[test]
fn fetch_failures_abort_the_search() {
    assert_eq!(
        locate_step(&FetchOutcome::Failed, b"Foo"),
        LocateDecision::Fail(Error::Platform)
    );
    assert_eq!(
        locate_step(&FetchOutcome::Missing, b"Foo"),
        LocateDecision::Fail(Error::PeripheralPropertiesNotFound)
    );
    assert_eq!(
        locate_step(&FetchOutcome::Fetched(PeripheralProps { local_name: None }), b"Foo"),
        LocateDecision::Fail(Error::LocalNameNotFound)
    );
}

#[test]
fn search_without_a_match_never_resolves() {
    let candidates = vec![advertising("Bar"), advertising("Baz"), advertising("foo")];
    assert_eq!(locate_in(&candidates, b"Foo"), LocateResult::Pending);
}

#[test]
fn search_over_nothing_never_resolves() {
    assert_eq!(locate_in(&Vec::new(), b"Foo"), LocateResult::Pending);
}

#[test]
fn first_matching_candidate_is_found() {
    let candidates = vec![advertising("Bar"), advertising("FooBar"), advertising("Foo")];
    assert_eq!(locate_in(&candidates, b"Foo"), LocateResult::Found(1));
}

#[test]
fn fetch_error_before_a_match_aborts() {
    let candidates = vec![advertising("Bar"), FetchOutcome::Missing, advertising("FooBar")];
    assert_eq!(
        locate_in(&candidates, b"Foo"),
        LocateResult::Failed(1, Error::PeripheralPropertiesNotFound)
    );
}
