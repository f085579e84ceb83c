use crate::poller::{poll_verdict, PollStep};
use crate::signal::FatalPythonException;
use pyo3::PyErr;
use vstd::prelude::*;
use vstd::std_specs::convert::FromSpec;

verus! {

/// How a race between a computation and the interrupt poller ended: with whichever of the two
/// finished first. A race ends exactly once, so it never has both a result and a signal.
#[derive(Debug)]
pub enum RaceOutcome<T, E> {
    /// The computation finished first, with its value or with an ordinary error of its own.
    Completed(Result<T, E>),
    /// The poller finished first: the computation was dropped where it stood.
    Interrupted(FatalPythonException),
}

impl<T, E> RaceOutcome<T, E> {
    /// The computation finished first and succeeded.
    pub open spec fn is_success(self) -> bool {
        self matches RaceOutcome::Completed(Ok(_))
    }

    /// The computation finished first and failed with an error of its own.
    pub open spec fn is_ordinary_error(self) -> bool {
        self matches RaceOutcome::Completed(Err(_))
    }

    /// The race was interrupted.
    pub open spec fn is_fatal(self) -> bool {
        self is Interrupted
    }
}

/// What the caller of a race gets: the computation's result as it is, or the fatal signal
/// converted into the caller's error type.
pub open spec fn race_result<T, E: From<FatalPythonException>>(outcome: RaceOutcome<T, E>) -> Result<
    T,
    E,
> {
    match outcome {
        RaceOutcome::Completed(result) => result,
        RaceOutcome::Interrupted(signal) => Err(E::from_spec(signal)),
    }
}

/// Resolves a race into what its caller gets.
///
/// A computation that finished first has its result handed on untouched, an error of its own
/// included. An interrupt always comes out as an error; which one is for the caller's `From`
/// to say, and is stated here for every error type whose `From` has a specification.
pub fn run_unless_interrupted<T, E: From<FatalPythonException>>(outcome: RaceOutcome<T, E>) -> (res:
    Result<T, E>)
    ensures
        outcome matches RaceOutcome::Completed(result) ==> res == result,
        outcome is Interrupted ==> res is Err,
        E::obeys_from_spec() ==> res == race_result(outcome),
{
    match outcome {
        RaceOutcome::Completed(result) => result,
        RaceOutcome::Interrupted(signal) => Err(E::from(signal)),
    }
}

/// Exclusivity of the outcome: every race ends in exactly one of success, ordinary error and
/// fatal signal, and its caller holds a value exactly when it ended in success.
pub proof fn lemma_outcome_is_exclusive<T, E: From<FatalPythonException>>(outcome: RaceOutcome<T, E>)
    ensures
        outcome.is_success() || outcome.is_ordinary_error() || outcome.is_fatal(),
        !(outcome.is_success() && outcome.is_ordinary_error()),
        !(outcome.is_success() && outcome.is_fatal()),
        !(outcome.is_ordinary_error() && outcome.is_fatal()),
        race_result(outcome) is Ok <==> outcome.is_success(),
        outcome.is_success() ==> race_result(outcome) == Ok::<T, E>(outcome->Completed_0->Ok_0),
        outcome.is_ordinary_error() ==> race_result(outcome) == Err::<T, E>(
            outcome->Completed_0->Err_0,
        ),
        outcome.is_fatal() ==> race_result(outcome) == Err::<T, E>(
            E::from_spec(outcome->Interrupted_0),
        ),
{
}

/// One turn that the executor gives to one side of a race.
pub enum Turn {
    /// The computation is resumed, and runs up to its next suspension or to its end.
    Work,
    /// The poller wakes from a sleep, asks the interrupt authority and gets this answer.
    Poll(Result<(), PyErr>),
}

impl Turn {
    /// The turn at which the poller learns of an interrupt.
    pub open spec fn is_interrupt(self) -> bool {
        self matches Turn::Poll(Err(_))
    }
}

/// The computation's state after `turns` turns of its own.
pub open spec fn resumed<S>(resume: spec_fn(S) -> S, state: S, turns: nat) -> S
    decreases turns,
{
    if turns == 0 {
        state
    } else {
        resumed(resume, resume(state), (turns - 1) as nat)
    }
}

/// The turns of `schedule` that go to the computation.
pub open spec fn work_turns(schedule: Seq<Turn>) -> nat
    decreases schedule.len(),
{
    if schedule.len() == 0 {
        0
    } else if schedule[0] is Work {
        1 + work_turns(schedule.skip(1))
    } else {
        work_turns(schedule.skip(1))
    }
}

/// How a race ends when the executor gives out its turns in the order of `schedule`.
///
/// The computation is known by two functions of its state: `finished` gives the result with
/// which its next turn ends it, if that turn does, and `resume` the state in which a turn that
/// does not end it leaves it. The race ends with the first turn that ends one of its sides, and
/// the turns after that one are not taken: the side that lost stays where it was. `None` where
/// the schedule is used up with both sides still running.
pub open spec fn race_outcome<S, T, E>(
    finished: spec_fn(S) -> Option<Result<T, E>>,
    resume: spec_fn(S) -> S,
    state: S,
    schedule: Seq<Turn>,
) -> Option<RaceOutcome<T, E>>
    decreases schedule.len(),
{
    if schedule.len() == 0 {
        None
    } else {
        match schedule[0] {
            Turn::Work => match finished(state) {
                Some(result) => Some(RaceOutcome::Completed(result)),
                None => race_outcome(finished, resume, resume(state), schedule.skip(1)),
            },
            Turn::Poll(answer) => match poll_verdict(answer) {
                PollStep::Fatal(signal) => Some(RaceOutcome::Interrupted(signal)),
                PollStep::Sleep { .. } => race_outcome(finished, resume, state, schedule.skip(1)),
            },
        }
    }
}

/// A race ends once: however the executor goes on after the turn that ended it, the outcome
/// stays what it was.
pub proof fn lemma_race_ends_once<S, T, E>(
    finished: spec_fn(S) -> Option<Result<T, E>>,
    resume: spec_fn(S) -> S,
    state: S,
    schedule: Seq<Turn>,
    more: Seq<Turn>,
)
    requires
        race_outcome(finished, resume, state, schedule) is Some,
    ensures
        race_outcome(finished, resume, state, schedule + more) == race_outcome(
            finished,
            resume,
            state,
            schedule,
        ),
    decreases schedule.len(),
{
    let longer = schedule + more;
    assert(longer[0] == schedule[0]);
    assert(longer.skip(1) == schedule.skip(1) + more);
    match schedule[0] {
        Turn::Work => {
            if finished(state) is None {
                lemma_race_ends_once(finished, resume, resume(state), schedule.skip(1), more);
            }
        },
        Turn::Poll(answer) => {
            if answer is Ok {
                lemma_race_ends_once(finished, resume, state, schedule.skip(1), more);
            }
        },
    }
}

/// No interrupt, no signal: a race in which every answer of the interrupt authority is clean
/// does not end with a fatal signal, whatever the order of the turns.
pub proof fn lemma_no_interrupt_no_signal<S, T, E>(
    finished: spec_fn(S) -> Option<Result<T, E>>,
    resume: spec_fn(S) -> S,
    state: S,
    schedule: Seq<Turn>,
)
    requires
        forall|k: int| 0 <= k < schedule.len() ==> !(#[trigger] schedule[k]).is_interrupt(),
    ensures
        !(race_outcome(finished, resume, state, schedule) matches Some(
            RaceOutcome::Interrupted(_),
        )),
    decreases schedule.len(),
{
    if schedule.len() > 0 {
        let rest = schedule.skip(1);
        assert forall|k: int| 0 <= k < rest.len() implies !(#[trigger] rest[k]).is_interrupt() by {
            assert(rest[k] == schedule[k + 1]);
        }
        match schedule[0] {
            Turn::Work => {
                lemma_no_interrupt_no_signal(finished, resume, resume(state), rest);
            },
            Turn::Poll(_) => {
                lemma_no_interrupt_no_signal(finished, resume, state, rest);
            },
        }
    }
}

/// While a race is running, the computation stands where its own turns have brought it: the
/// turns of the poller do not touch it.
pub proof fn lemma_race_goes_on_from<S, T, E>(
    finished: spec_fn(S) -> Option<Result<T, E>>,
    resume: spec_fn(S) -> S,
    state: S,
    before: Seq<Turn>,
    after: Seq<Turn>,
)
    requires
        race_outcome(finished, resume, state, before) is None,
    ensures
        race_outcome(finished, resume, state, before + after) == race_outcome(
            finished,
            resume,
            resumed(resume, state, work_turns(before)),
            after,
        ),
    decreases before.len(),
{
    if before.len() == 0 {
        assert(before + after == after);
    } else {
        let whole = before + after;
        assert(whole[0] == before[0]);
        assert(whole.skip(1) == before.skip(1) + after);
        match before[0] {
            Turn::Work => {
                lemma_race_goes_on_from(finished, resume, resume(state), before.skip(1), after);
            },
            Turn::Poll(_) => {
                lemma_race_goes_on_from(finished, resume, state, before.skip(1), after);
            },
        }
    }
}

/// An interrupt ends a race that is still running, at the very turn at which the poller gets
/// it, in whatever state the computation is: the outcome is the fatal signal with the
/// authority's exception unchanged, and nothing that the schedule holds after it counts.
pub proof fn lemma_interrupt_ends_the_race<S, T, E>(
    finished: spec_fn(S) -> Option<Result<T, E>>,
    resume: spec_fn(S) -> S,
    state: S,
    before: Seq<Turn>,
    cause: PyErr,
    after: Seq<Turn>,
)
    requires
        race_outcome(finished, resume, state, before) is None,
    ensures
        race_outcome(finished, resume, state, before + seq![Turn::Poll(Err(cause))] + after)
            == Some(RaceOutcome::<T, E>::Interrupted(FatalPythonException(cause))),
{
    let tail = seq![Turn::Poll(Err(cause))] + after;
    assert(before + seq![Turn::Poll(Err(cause))] + after == before + tail);
    assert(tail[0] == Turn::Poll(Err(cause)));
    lemma_race_goes_on_from(finished, resume, state, before, tail);
}

/// A computation that comes to its end while the race is still running decides the race, with
/// its own result, be it a value or an ordinary error.
pub proof fn lemma_finished_computation_ends_the_race<S, T, E>(
    finished: spec_fn(S) -> Option<Result<T, E>>,
    resume: spec_fn(S) -> S,
    state: S,
    before: Seq<Turn>,
    after: Seq<Turn>,
)
    requires
        race_outcome(finished, resume, state, before) is None,
        finished(resumed(resume, state, work_turns(before))) is Some,
    ensures
        race_outcome(finished, resume, state, before + seq![Turn::Work] + after) == Some(
            RaceOutcome::Completed(finished(resumed(resume, state, work_turns(before)))->Some_0),
        ),
{
    let tail = seq![Turn::Work] + after;
    assert(before + seq![Turn::Work] + after == before + tail);
    assert(tail[0] == Turn::Work);
    lemma_race_goes_on_from(finished, resume, state, before, tail);
}

} // verus!
