//! The search loop: generate candidates until one matches the pattern set.
//!
//! [`search_with_attempts`] is one worker's search run through the state
//! machine of [`crate::worker`], with a bound on the number of candidates so
//! that the run always ends. The multi-worker coordinator drives the same
//! per-candidate decisions around the shared stop signal and the result
//! channel; here the stop signal is never set by anyone else, so it is
//! observed clear on every step.

use vstd::prelude::*;

use crate::address::{
    patterns_are_valid, patterns_ok, spec_matches_any, AddressError, BitcoinAddress,
};
use crate::worker::{worker_step, WorkerAction, WorkerState};

verus! {

/// Why a search run ended without a winning keypair.
#[derive(Clone, Copy, PartialEq, Eq, Structural, Debug)]
pub enum SearchError {
    /// Some pattern of the set does not compile; surfaced before the first
    /// candidate is generated.
    InvalidPattern,
    /// Candidate generation failed; fatal to the whole search.
    Generation(AddressError),
    /// The attempt bound ran out before any candidate matched.
    Exhausted,
}

/// The winning keypair of one search session together with the elapsed
/// wall-clock time, as measured by the caller that ran the session.
pub struct SearchResult {
    /// The unique keypair consumed from the result channel.
    pub keypair: BitcoinAddress,
    /// Elapsed wall-clock time of the session, in milliseconds.
    pub elapsed_millis: u64,
}

/// Runs one worker's search for at most `max_attempts` candidates: each
/// step generates a keypair, tests it against the pattern set, and feeds
/// the outcome to the worker state machine. A returned keypair is one the
/// state machine decided to publish: it matches the pattern set and is
/// derived from one 32-byte secret. Invalid patterns are rejected before
/// the first candidate, and a generation failure ends the whole search.
/// With a pattern set that matches every address, the run never exhausts
/// its attempts: it ends with a winner unless generation itself fails.
pub fn search_with_attempts(
    regexes: &[String],
    is_case_sensitive: bool,
    compressed: bool,
    bech32: bool,
    max_attempts: u64,
) -> (r: Result<BitcoinAddress, SearchError>)
    ensures
        r matches Ok(b) ==> spec_matches_any(b.address@, regexes@, is_case_sensitive) && (
        exists|s: Seq<u8>| s.len() == 32 && #[trigger] b.derived_from(s, compressed, bech32)),
        r == Err::<BitcoinAddress, SearchError>(SearchError::InvalidPattern) <==> !patterns_ok(
            regexes@,
            is_case_sensitive,
        ),
        patterns_ok(regexes@, is_case_sensitive) && max_attempts == 0 ==> r == Err::<
            BitcoinAddress,
            SearchError,
        >(SearchError::Exhausted),
        patterns_ok(regexes@, is_case_sensitive) && bech32 && !compressed && max_attempts > 0
            ==> r == Err::<BitcoinAddress, SearchError>(
            SearchError::Generation(AddressError::UncompressedSegwit),
        ),
        r == Err::<BitcoinAddress, SearchError>(
            SearchError::Generation(AddressError::UncompressedSegwit),
        ) ==> bech32 && !compressed,
        patterns_ok(regexes@, is_case_sensitive) && max_attempts > 0 && (forall|a: Seq<char>|
            spec_matches_any(a, regexes@, is_case_sensitive)) ==> ((r matches Ok(b)
            && spec_matches_any(b.address@, regexes@, is_case_sensitive)) || (r matches Err(e)
            && e is Generation)),
{
    if !patterns_are_valid(regexes, is_case_sensitive) {
        return Err(SearchError::InvalidPattern);
    }
    let mut attempts: u64 = 0;
    while attempts < max_attempts
        invariant
            patterns_ok(regexes@, is_case_sensitive),
            attempts <= max_attempts,
            bech32 && !compressed ==> attempts == 0,
            (forall|a: Seq<char>| spec_matches_any(a, regexes@, is_case_sensitive)) ==> attempts
                == 0,
        decreases max_attempts - attempts,
    {
        let candidate = match BitcoinAddress::new(compressed, bech32) {
            Ok(b) => b,
            Err(e) => {
                return Err(SearchError::Generation(e));
            },
        };
        let matched = candidate.matches_with_any(regexes, is_case_sensitive);
        let (state, _action) = worker_step(WorkerState::Searching, matched, false);
        if state == WorkerState::Reporting {
            // the reporting step always decides to publish: this is the one
            // result the session consumes
            let (_final_state, action) = worker_step(state, matched, false);
            if action == WorkerAction::SetStopAndPublish {
                return Ok(candidate);
            }
        }
        attempts = attempts + 1;
    }
    Err(SearchError::Exhausted)
}

} // verus!
