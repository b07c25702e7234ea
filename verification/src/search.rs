//! The search of one worker, and the flag and the counter that the workers
//! of a run share.

use crate::keys::generate_key_address;
use crate::keys::CurveContext;
use crate::keys::Keypair;
use crate::pattern::Pattern;
use std::sync::atomic::AtomicBool;
use std::sync::atomic::AtomicU64;
use std::sync::atomic::Ordering;
use std::sync::Arc;
use vstd::prelude::*;

verus! {

/// A holder's handle to the signal that ends a search. The signal starts
/// unset, any holder may set it, and nothing unsets it: a handle that has
/// once seen it set need not look again.
pub struct StopFlag {
    flag: Arc<AtomicBool>,
    seen: bool,
}

impl StopFlag {
    /// This handle has set the signal or has seen it set.
    pub closed spec fn seen_set(&self) -> bool {
        self.seen
    }

    /// The first handle to a signal that is not set.
    pub fn new() -> (first: StopFlag)
        ensures
            !first.seen_set(),
    {
        StopFlag { flag: Arc::new(AtomicBool::new(false)), seen: false }
    }

    /// Another handle to the same signal, for another holder. It knows what
    /// this one knows.
    pub fn share(&self) -> (other: StopFlag)
        ensures
            other.seen_set() == self.seen_set(),
    {
        StopFlag { flag: Arc::clone(&self.flag), seen: self.seen }
    }

    /// Tells whether the signal is set. Once that has been so it stays so;
    /// until then the signal is read, and the answer is what was seen at the
    /// moment of the read, for another holder may set it at any time.
    pub fn is_set(&mut self) -> (set: bool)
        ensures
            set == final(self).seen_set(),
            old(self).seen_set() ==> set,
    {
        if !self.seen {
            self.seen = self.flag.load(Ordering::Relaxed);
        }
        self.seen
    }

    /// Sets the signal. Setting it again changes nothing.
    pub fn set(&mut self)
        ensures
            final(self).seen_set(),
    {
        self.flag.store(true, Ordering::Relaxed);
        self.seen = true;
    }
}

/// A holder's handle to the number of key pairs that all workers of a
/// search have generated and tested. The number starts at zero and is only
/// ever added to, one attempt at a time.
pub struct AttemptCounter {
    count: Arc<AtomicU64>,
    recorded: Ghost<nat>,
}

impl AttemptCounter {
    /// The number of attempts that were counted through this handle.
    pub closed spec fn recorded(&self) -> nat {
        self.recorded@
    }

    /// The first handle to a counter at zero.
    pub fn new() -> (first: AttemptCounter)
        ensures
            first.recorded() == 0,
    {
        AttemptCounter { count: Arc::new(AtomicU64::new(0)), recorded: Ghost(0) }
    }

    /// Another handle to the same counter, for another holder. Nothing has
    /// been counted through it yet.
    pub fn share(&self) -> (other: AttemptCounter)
        ensures
            other.recorded() == 0,
    {
        AttemptCounter { count: Arc::clone(&self.count), recorded: Ghost(0) }
    }

    /// Counts one more attempt.
    pub fn record(&mut self)
        ensures
            final(self).recorded() == old(self).recorded() + 1,
    {
        self.count.fetch_add(1, Ordering::Relaxed);
        self.recorded = Ghost(self.recorded@ + 1);
    }

    /// Reads the count of all holders. Others may be adding to it, so the
    /// answer is only what was seen at the moment of the read.
    pub fn total(&self) -> u64 {
        self.count.load(Ordering::Relaxed)
    }
}

/// The number of workers of a search.
pub const WORKER_COUNT: usize = 8;

/// What a worker hands back: nothing, when it stopped without a match, or
/// the key pair whose address matched.
#[derive(Debug, PartialEq, Eq)]
pub enum SearchResult {
    Empty,
    Found(Keypair),
}

/// The result of one worker together with the number of key pairs that it
/// generated and tested.
#[derive(Debug, PartialEq, Eq)]
pub struct SearchOutcome {
    pub result: SearchResult,
    pub attempts: u64,
}

/// What holds of a key pair that a worker found for a pattern: it has the
/// shape of a key and an address, the address belongs to the key, and it
/// begins with the pattern.
pub open spec fn answers(pair: Keypair, pattern: Seq<char>) -> bool {
    &&& pair.well_formed()
    &&& pair.genuine()
    &&& pattern.is_prefix_of(pair.address@)
}

/// What a worker makes of one candidate: the candidate itself where its
/// address begins with the pattern, nothing otherwise.
pub open spec fn judged(candidate: Keypair, pattern: Seq<char>) -> SearchResult {
    if pattern.is_prefix_of(candidate.address@) {
        SearchResult::Found(candidate)
    } else {
        SearchResult::Empty
    }
}

/// Tests one candidate against the pattern.
pub fn judge(candidate: Keypair, pattern: &Pattern) -> (result: SearchResult)
    ensures
        result == judged(candidate, pattern@),
{
    if pattern.matches(candidate.address.as_str()) {
        SearchResult::Found(candidate)
    } else {
        SearchResult::Empty
    }
}

/// Generates key pairs until the address of one begins with the pattern, or
/// until the signal is seen set. The signal is read before each attempt;
/// each attempt is counted, matching or not; a match sets the signal.
///
/// Whatever the signal and the generator do:
/// - a pair that is found answers the pattern and took at least one attempt;
/// - the pattern without digits is answered by the first attempt, if there
///   is one, and a pattern of more digits than an address has is never
///   answered;
/// - a worker whose handle has seen the signal set makes no attempt;
/// - a worker ends only with the signal set, by itself where it found a
///   pair, or with its tally of attempts full: it keeps the tally in 64 bits
///   and gives up, empty handed, should that ever happen;
/// - every attempt is counted, and nothing else is.
pub fn find_address_starting_with(
    found: &mut StopFlag,
    processed: &mut AttemptCounter,
    pattern: &Pattern,
) -> (outcome: SearchOutcome)
    ensures
        outcome.result matches SearchResult::Found(pair) ==> answers(pair, pattern@)
            && outcome.attempts >= 1,
        pattern@.len() == 0 ==> outcome.attempts <= 1,
        pattern@.len() == 0 ==> (outcome.result is Found <==> outcome.attempts == 1),
        pattern@.len() > 40 ==> outcome.result is Empty,
        old(found).seen_set() ==> outcome.result is Empty && outcome.attempts == 0,
        final(found).seen_set() || outcome.attempts == u64::MAX,
        final(processed).recorded() == old(processed).recorded() + outcome.attempts,
{
    let mut rng = rand::thread_rng();
    let context = CurveContext::new();
    let mut attempts: u64 = 0;
    while attempts < u64::MAX
        invariant
            pattern@.len() == 0 ==> attempts == 0,
            old(found).seen_set() ==> attempts == 0 && found.seen_set(),
            processed.recorded() == old(processed).recorded() + attempts,
        decreases u64::MAX - attempts,
    {
        if found.is_set() {
            return SearchOutcome { result: SearchResult::Empty, attempts };
        }
        let candidate = generate_key_address(&mut rng, &context);
        processed.record();
        attempts = attempts + 1;
        match judge(candidate, pattern) {
            SearchResult::Found(pair) => {
                found.set();
                return SearchOutcome { result: SearchResult::Found(pair), attempts };
            },
            SearchResult::Empty => {},
        }
    }
    SearchOutcome { result: SearchResult::Empty, attempts }
}

} // verus!
