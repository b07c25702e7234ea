//! The reporter: a state machine that is told of timeouts and results and
//! says what to print.

use crate::keys::Keypair;
use crate::progress::progress_report;
use crate::progress::report_of;
use crate::progress::ProgressReport;
use crate::search::SearchResult;
use vstd::prelude::*;

verus! {

/// How long one wait for a result lasts, in milliseconds.
pub const POLL_MILLIS: u64 = 1000;

/// Where the reporter stands: waiting for a result, about to print a
/// progress line, or done with the answer in hand.
#[derive(Debug, Clone, Copy, PartialEq, Eq, Structural)]
pub enum ReporterState {
    Waiting,
    Reporting,
    Found,
}

/// What the reporter is told: a wait ran out, with the whole seconds of
/// work and the attempts counted at that moment; a worker's result came in;
/// a progress line has been printed.
#[derive(Debug, PartialEq, Eq)]
pub enum ReporterEvent {
    TimedOut { elapsed: u64, processed: u64 },
    Received(SearchResult),
    Printed,
}

/// What the reporter asks for next: wait for a result for so many
/// milliseconds, print a progress line, print the answer, or nothing more.
#[derive(Debug, PartialEq, Eq)]
pub enum ReporterAction {
    Poll { millis: u64 },
    PrintProgress(ProgressReport),
    PrintResult(Keypair),
    Halt,
}

/// The event is a worker's result that holds a key pair.
pub open spec fn is_match(event: ReporterEvent) -> bool {
    event matches ReporterEvent::Received(SearchResult::Found(_))
}

/// One step of the reporter. Once the answer is found nothing moves it.
/// Before that, a wait that ran out calls for a progress line, a result
/// with a key pair is the answer, and an empty result or a printed line
/// sends the reporter back to waiting.
pub open spec fn step_of(state: ReporterState, event: ReporterEvent, digits: nat) -> (
    ReporterState,
    ReporterAction,
) {
    if state == ReporterState::Found {
        (ReporterState::Found, ReporterAction::Halt)
    } else {
        match event {
            ReporterEvent::TimedOut { elapsed, processed } => (
                ReporterState::Reporting,
                ReporterAction::PrintProgress(report_of(processed, elapsed, digits)),
            ),
            ReporterEvent::Received(SearchResult::Found(pair)) => (
                ReporterState::Found,
                ReporterAction::PrintResult(pair),
            ),
            ReporterEvent::Received(SearchResult::Empty) => (
                ReporterState::Waiting,
                ReporterAction::Poll { millis: POLL_MILLIS },
            ),
            ReporterEvent::Printed => (
                ReporterState::Waiting,
                ReporterAction::Poll { millis: POLL_MILLIS },
            ),
        }
    }
}

/// The state in which a reporter that started out waiting meets the event
/// at the given place of a run.
pub open spec fn state_before(events: Seq<ReporterEvent>, digits: nat, at: nat) -> ReporterState
    decreases at,
{
    if at == 0 {
        ReporterState::Waiting
    } else {
        step_of(state_before(events, digits, (at - 1) as nat), events[at - 1], digits).0
    }
}

/// The action with which the reporter answers the event at the given place
/// of a run.
pub open spec fn action_at(events: Seq<ReporterEvent>, digits: nat, at: nat) -> ReporterAction {
    step_of(state_before(events, digits, at), events[at as int], digits).1
}

/// The place of the first result with a key pair at or after `from`, or the
/// number of events where there is none.
pub open spec fn first_match(events: Seq<ReporterEvent>, from: nat) -> nat
    decreases events.len() - from,
{
    if from < events.len() && !is_match(events[from as int]) {
        first_match(events, from + 1)
    } else {
        from
    }
}

/// The first match stands where no match stands before it, and is one
/// itself unless the events have run out.
pub proof fn lemma_first_match(events: Seq<ReporterEvent>, from: nat)
    requires
        from <= events.len(),
    ensures
        from <= first_match(events, from) <= events.len(),
        forall|k: int| from <= k < first_match(events, from) ==> !is_match(#[trigger] events[k]),
        first_match(events, from) < events.len() ==> is_match(
            events[first_match(events, from) as int],
        ),
    decreases events.len() - from,
{
    if from < events.len() && !is_match(events[from as int]) {
        lemma_first_match(events, from + 1);
    }
}

/// The reporter has the answer exactly from the first match on.
pub proof fn lemma_found_after_first_match(events: Seq<ReporterEvent>, digits: nat, at: nat)
    requires
        at <= events.len(),
    ensures
        state_before(events, digits, at) == ReporterState::Found <==> first_match(events, 0) < at,
    decreases at,
{
    lemma_first_match(events, 0);
    if at > 0 {
        lemma_found_after_first_match(events, digits, (at - 1) as nat);
    }
}

/// Of all the results that come in, whatever their number and order, the
/// reporter prints one, if any holds a key pair: the first that does. It
/// prints that very pair, and answers every later event with `Halt`.
pub proof fn lemma_one_result_printed(events: Seq<ReporterEvent>, digits: nat, at: nat)
    requires
        at < events.len(),
    ensures
        action_at(events, digits, at) is PrintResult <==> at == first_match(events, 0),
        action_at(events, digits, at) matches ReporterAction::PrintResult(pair)
            ==> events[at as int] == ReporterEvent::Received(SearchResult::Found(pair)),
        at > first_match(events, 0) ==> action_at(events, digits, at) is Halt,
{
    lemma_first_match(events, 0);
    lemma_found_after_first_match(events, digits, at);
}

/// A run in which a result with a key pair comes in has an answer printed.
pub proof fn lemma_some_result_printed(events: Seq<ReporterEvent>, digits: nat, at: nat)
    requires
        at < events.len(),
        is_match(events[at as int]),
    ensures
        first_match(events, 0) <= at,
        action_at(events, digits, first_match(events, 0)) is PrintResult,
{
    lemma_first_match(events, 0);
    lemma_one_result_printed(events, digits, first_match(events, 0));
}

/// The reporter prints at most one answer in a run.
pub proof fn lemma_no_second_result(
    events: Seq<ReporterEvent>,
    digits: nat,
    first: nat,
    second: nat,
)
    requires
        first < second < events.len(),
    ensures
        !(action_at(events, digits, first) is PrintResult && action_at(events, digits, second)
            is PrintResult),
{
    lemma_one_result_printed(events, digits, first);
    lemma_one_result_printed(events, digits, second);
}

/// Where a reporter begins: waiting, with a first wait to make.
pub fn start() -> (first: (ReporterState, ReporterAction))
    ensures
        first == (ReporterState::Waiting, ReporterAction::Poll { millis: POLL_MILLIS }),
{
    (ReporterState::Waiting, ReporterAction::Poll { millis: POLL_MILLIS })
}

/// Takes the reporter one step on: the state that follows, and what to do
/// next.
pub fn step(state: ReporterState, event: ReporterEvent, pattern_length: usize) -> (next: (
    ReporterState,
    ReporterAction,
))
    ensures
        next == step_of(state, event, pattern_length as nat),
{
    match state {
        ReporterState::Found => (ReporterState::Found, ReporterAction::Halt),
        _ => match event {
            ReporterEvent::TimedOut { elapsed, processed } => (
                ReporterState::Reporting,
                ReporterAction::PrintProgress(progress_report(processed, elapsed, pattern_length)),
            ),
            ReporterEvent::Received(SearchResult::Found(pair)) => (
                ReporterState::Found,
                ReporterAction::PrintResult(pair),
            ),
            ReporterEvent::Received(SearchResult::Empty) => (
                ReporterState::Waiting,
                ReporterAction::Poll { millis: POLL_MILLIS },
            ),
            ReporterEvent::Printed => (
                ReporterState::Waiting,
                ReporterAction::Poll { millis: POLL_MILLIS },
            ),
        },
    }
}

} // verus!
