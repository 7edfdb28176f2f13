use std::time::Instant;

use vanity_address::address::AddressError;
use vanity_address::search::{search_with_attempts, SearchError, SearchResult};
use vanity_address::worker::{worker_step, WorkerAction, WorkerState};

#[test]
fn worker_keeps_searching_without_match_or_stop() {
    let (state, action) = worker_step(WorkerState::Searching, false, false);
    assert_eq!(state, WorkerState::Searching);
    assert_eq!(action, WorkerAction::Continue);
}

#[test]
fn worker_commits_to_reporting_on_match_with_clear_stop() {
    let (state, action) = worker_step(WorkerState::Searching, true, false);
    assert_eq!(state, WorkerState::Reporting);
    assert_eq!(action, WorkerAction::Proceed);
}

#[test]
fn worker_terminates_when_stop_is_seen() {
    // with or without a match in hand, a searching worker that sees the
    // stop signal discards its candidate and exits without publishing
    let (state, action) = worker_step(WorkerState::Searching, false, true);
    assert_eq!(state, WorkerState::Terminated);
    assert_eq!(action, WorkerAction::Exit);
    let (state, action) = worker_step(WorkerState::Searching, true, true);
    assert_eq!(state, WorkerState::Terminated);
    assert_eq!(action, WorkerAction::Exit);
}

#[test]
fn reporting_publishes_once_and_terminates() {
    let (state, action) = worker_step(WorkerState::Reporting, false, true);
    assert_eq!(state, WorkerState::Terminated);
    assert_eq!(action, WorkerAction::SetStopAndPublish);
    let (state, action) = worker_step(WorkerState::Terminated, true, false);
    assert_eq!(state, WorkerState::Terminated);
    assert_eq!(action, WorkerAction::Exit);
}

#[test]
fn search_finds_a_single_character_prefix() {
    // every legacy mainnet address starts with '1', so the very first
    // candidate wins
    let patterns = vec!["^1".to_string()];
    let b = search_with_attempts(&patterns, true, true, false, 10).unwrap();
    assert!(b.address.starts_with('1'));
}

#[test]
fn search_with_a_universal_pattern_wins_on_the_first_candidate() {
    // the empty pattern matches every address, so one attempt is enough
    let patterns = vec![String::new()];
    let b = search_with_attempts(&patterns, true, true, false, 1).unwrap();
    assert!(b.address.starts_with('1'));
}

#[test]
fn search_with_empty_pattern_set_exhausts() {
    let none: Vec<String> = vec![];
    let err = search_with_attempts(&none, true, true, false, 3).unwrap_err();
    assert_eq!(err, SearchError::Exhausted);
}

#[test]
fn search_rejects_an_invalid_pattern_before_generating() {
    let patterns = vec!["(".to_string()];
    let err = search_with_attempts(&patterns, true, true, false, 10).unwrap_err();
    assert_eq!(err, SearchError::InvalidPattern);
}

#[test]
fn search_with_no_attempts_exhausts() {
    let patterns = vec!["^1".to_string()];
    let err = search_with_attempts(&patterns, true, true, false, 0).unwrap_err();
    assert_eq!(err, SearchError::Exhausted);
}

#[test]
fn search_propagates_a_generation_failure() {
    let patterns = vec!["^1".to_string()];
    let err = search_with_attempts(&patterns, true, false, true, 5).unwrap_err();
    assert_eq!(err, SearchError::Generation(AddressError::UncompressedSegwit));
}

#[test]
fn vanity_prefix_scenario() {
    // pattern "1A" as a prefix, case-sensitive, legacy encoding: the search
    // must end with a keypair whose address begins with "1A", and the
    // elapsed time is a plain duration
    let started_at = Instant::now();
    let patterns = vec!["^1A".to_string()];
    let keypair = search_with_attempts(&patterns, true, true, false, 1_000_000).unwrap();
    let result = SearchResult {
        keypair,
        elapsed_millis: started_at.elapsed().as_millis() as u64,
    };
    assert!(result.keypair.address.starts_with("1A"));
    assert!(!result.keypair.private_key.is_empty());
    assert!(!result.keypair.public_key.is_empty());
    assert!(result.elapsed_millis < u64::MAX);
}
