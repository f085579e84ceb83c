use crate::race::{race_outcome, work_turns, RaceOutcome, Turn};
use vstd::prelude::*;

verus! {

/// The running totals at which the sum reports a milestone are the multiples of this number.
pub const MILESTONE: usize = 500;

/// Milliseconds for which a sleepy sum pauses at a milestone.
pub const MILESTONE_PAUSE: u64 = 1000;

/// What a sum asks of its executor next.
#[derive(Debug, PartialEq, Eq, Structural, Clone, Copy)]
pub enum SumStep {
    /// One increment was made and the running total is now `result`: let other work run, then
    /// resume. `milestone` tells whether the total is a milestone.
    Yield { result: usize, milestone: bool },
    /// A milestone was reached by a sleepy sum: wait for `millis` milliseconds, then resume.
    Pause { millis: u64 },
    /// Nothing is left to add: the sum is `result`.
    Done { result: usize },
}

/// A sum as mathematics sees it.
pub struct SumState {
    /// The running total.
    pub result: nat,
    /// The increments that are still to be made.
    pub remaining: nat,
    /// Whether the sum pauses at milestones.
    pub sleepy: bool,
    /// Whether the pause of the milestone just reached is still to be taken.
    pub pause_due: bool,
}

/// Whether a running total is a milestone.
pub open spec fn is_milestone(result: nat) -> bool {
    result % (MILESTONE as nat) == 0
}

/// The state in which the sum of `a` and `b` starts.
pub open spec fn initial_state(a: nat, b: nat, sleepy: bool) -> SumState {
    SumState { result: a, remaining: b, sleepy, pause_due: false }
}

/// The state after one step.
pub open spec fn next_state(state: SumState) -> SumState {
    if state.pause_due {
        SumState { pause_due: false, ..state }
    } else if state.remaining == 0 {
        state
    } else {
        SumState {
            result: state.result + 1,
            remaining: (state.remaining - 1) as nat,
            sleepy: state.sleepy,
            pause_due: state.sleepy && is_milestone(state.result + 1),
        }
    }
}

/// Whether `step` is the step that a sum in `state` takes.
pub open spec fn is_step_of(state: SumState, step: SumStep) -> bool {
    match step {
        SumStep::Pause { millis } => state.pause_due && millis == MILESTONE_PAUSE,
        SumStep::Done { result } => !state.pause_due && state.remaining == 0 && result
            == state.result,
        SumStep::Yield { result, milestone } => !state.pause_due && state.remaining > 0 && result
            == state.result + 1 && milestone == is_milestone(state.result + 1),
    }
}

/// A sum in progress: `a + b` computed by adding one to `a`, `b` times over, with a suspension
/// after every increment so that an interrupt can come in between.
#[derive(Debug)]
pub struct SumTask {
    result: usize,
    remaining: usize,
    sleepy: bool,
    pause_due: bool,
}

impl View for SumTask {
    type V = SumState;

    closed spec fn view(&self) -> SumState {
        SumState {
            result: self.result as nat,
            remaining: self.remaining as nat,
            sleepy: self.sleepy,
            pause_due: self.pause_due,
        }
    }
}

impl SumTask {
    #[verifier::type_invariant]
    spec fn fits(&self) -> bool {
        self.result + self.remaining <= usize::MAX
    }

    /// The sum of `a` and `b`, not yet started.
    pub fn new(a: usize, b: usize, sleepy: bool) -> (task: SumTask)
        requires
            a + b <= usize::MAX,
        ensures
            task@ == initial_state(a as nat, b as nat, sleepy),
    {
        SumTask { result: a, remaining: b, sleepy, pause_due: false }
    }

    /// Runs the sum up to its next suspension, or to its end.
    ///
    /// A pause that is due comes first. Otherwise, while increments remain, one is made and the
    /// sum yields; once none remains the sum is done, and stays so however often it is asked.
    pub fn step(&mut self) -> (step: SumStep)
        ensures
            is_step_of(old(self)@, step),
            final(self)@ == next_state(old(self)@),
    {
        proof {
            use_type_invariant(&*self);
        }
        if self.pause_due {
            self.pause_due = false;
            SumStep::Pause { millis: MILESTONE_PAUSE }
        } else if self.remaining == 0 {
            SumStep::Done { result: self.result }
        } else {
            let result = self.result + 1;
            let milestone = result % MILESTONE == 0;
            *self = SumTask {
                result,
                remaining: self.remaining - 1,
                sleepy: self.sleepy,
                pause_due: self.sleepy && milestone,
            };
            SumStep::Yield { result, milestone }
        }
    }
}

/// What a sum does from a state to its end.
pub struct SumRun {
    /// The times it yields.
    pub yields: nat,
    /// The pauses it takes.
    pub pauses: nat,
    /// The total it is done with.
    pub result: nat,
}

/// Follows a sum step by step from `state` until it is done.
pub open spec fn run_to_end(state: SumState) -> SumRun
    decreases 2 * state.remaining + if state.pause_due { 1nat } else { 0nat },
{
    if state.pause_due {
        let rest = run_to_end(next_state(state));
        SumRun { pauses: rest.pauses + 1, ..rest }
    } else if state.remaining == 0 {
        SumRun { yields: 0, pauses: 0, result: state.result }
    } else {
        let rest = run_to_end(next_state(state));
        SumRun { yields: rest.yields + 1, ..rest }
    }
}

/// The number of milestones above `from` and up to `to`.
pub open spec fn milestones_between(from: nat, to: nat) -> nat {
    (to / (MILESTONE as nat) - from / (MILESTONE as nat)) as nat
}

/// Every sum comes to its end, and from any state: it yields once for each increment that
/// remains, ends with the running total raised by their number, and, if it is sleepy, pauses
/// once for the pause that is due and once for each milestone that it has yet to reach.
pub proof fn lemma_run_to_end(state: SumState)
    ensures
        run_to_end(state).yields == state.remaining,
        run_to_end(state).result == state.result + state.remaining,
        run_to_end(state).pauses == (if state.pause_due { 1nat } else { 0nat }) + (if state.sleepy {
            milestones_between(state.result, state.result + state.remaining)
        } else {
            0nat
        }),
    decreases 2 * state.remaining + if state.pause_due { 1nat } else { 0nat },
{
    if state.pause_due || state.remaining > 0 {
        lemma_run_to_end(next_state(state));
    }
}

/// The sum of `a` and `b` is `a + b`, after `b` yields; a sleepy one pauses once at each
/// milestone above `a` and up to `a + b`, and no other sum ever pauses.
pub proof fn lemma_sum_is_a_plus_b(a: nat, b: nat, sleepy: bool)
    ensures
        run_to_end(initial_state(a, b, sleepy)).result == a + b,
        run_to_end(initial_state(a, b, sleepy)).yields == b,
        run_to_end(initial_state(a, b, sleepy)).pauses == if sleepy {
            milestones_between(a, a + b)
        } else {
            0nat
        },
{
    lemma_run_to_end(initial_state(a, b, sleepy));
}

/// The result with which the next turn of a sum ends it, if that turn does. A sum has no
/// error of its own: it ends with its total.
pub open spec fn sum_finished<E>(state: SumState) -> Option<Result<nat, E>> {
    if !state.pause_due && state.remaining == 0 {
        Some(Ok(state.result))
    } else {
        None
    }
}

/// How the race of a sum in `state` against the poller ends, for the turns of `schedule`.
pub open spec fn sum_race<E>(state: SumState, schedule: Seq<Turn>) -> Option<RaceOutcome<nat, E>> {
    race_outcome(
        |s: SumState| sum_finished::<E>(s),
        |s: SumState| next_state(s),
        state,
        schedule,
    )
}

/// The two laws below, for a sum in any state and for any two functions that agree with
/// `sum_finished` and `next_state`.
proof fn lemma_race_of_a_sum<E>(
    finished: spec_fn(SumState) -> Option<Result<nat, E>>,
    resume: spec_fn(SumState) -> SumState,
    state: SumState,
    schedule: Seq<Turn>,
)
    requires
        forall|s: SumState| #[trigger] finished(s) == sum_finished::<E>(s),
        forall|s: SumState| #[trigger] resume(s) == next_state(s),
    ensures
        race_outcome(finished, resume, state, schedule) matches Some(RaceOutcome::Completed(end))
            ==> end == Ok::<nat, E>(state.result + state.remaining),
        (forall|k: int| 0 <= k < schedule.len() ==> !(#[trigger] schedule[k]).is_interrupt())
            && work_turns(schedule) > run_to_end(state).yields + run_to_end(state).pauses
            ==> race_outcome(finished, resume, state, schedule) == Some(
            RaceOutcome::Completed(Ok::<nat, E>(state.result + state.remaining)),
        ),
    decreases schedule.len(),
{
    if schedule.len() > 0 {
        let rest = schedule.skip(1);
        if forall|k: int| 0 <= k < schedule.len() ==> !(#[trigger] schedule[k]).is_interrupt() {
            assert forall|k: int| 0 <= k < rest.len() implies !(#[trigger] rest[k]).is_interrupt() by {
                assert(rest[k] == schedule[k + 1]);
            }
            assert(!schedule[0].is_interrupt());
        }
        match schedule[0] {
            Turn::Work => {
                lemma_race_of_a_sum(finished, resume, next_state(state), rest);
            },
            Turn::Poll(_) => {
                lemma_race_of_a_sum(finished, resume, state, rest);
            },
        }
    }
}

/// A race that the sum of `a` and `b` wins gives `a + b`, in whatever order the executor has
/// given out the turns.
pub proof fn lemma_sum_race_gives_the_sum<E>(a: nat, b: nat, sleepy: bool, schedule: Seq<Turn>)
    ensures
        sum_race::<E>(initial_state(a, b, sleepy), schedule) matches Some(
            RaceOutcome::Completed(end),
        ) ==> end == Ok::<nat, E>(a + b),
{
    lemma_race_of_a_sum(
        |s: SumState| sum_finished::<E>(s),
        |s: SumState| next_state(s),
        initial_state(a, b, sleepy),
        schedule,
    );
}

/// No interrupt, no signal: while every answer of the interrupt authority is clean, the race
/// of a sum is won by the sum as soon as the sum has had a turn for each of its yields, one
/// for each of its pauses and one more to end.
pub proof fn lemma_sum_race_without_interrupt<E>(a: nat, b: nat, sleepy: bool, schedule: Seq<Turn>)
    requires
        forall|k: int| 0 <= k < schedule.len() ==> !(#[trigger] schedule[k]).is_interrupt(),
        work_turns(schedule) > b + if sleepy {
            milestones_between(a, a + b)
        } else {
            0nat
        },
    ensures
        sum_race::<E>(initial_state(a, b, sleepy), schedule) == Some(
            RaceOutcome::Completed(Ok::<nat, E>(a + b)),
        ),
{
    lemma_run_to_end(initial_state(a, b, sleepy));
    lemma_race_of_a_sum(
        |s: SumState| sum_finished::<E>(s),
        |s: SumState| next_state(s),
        initial_state(a, b, sleepy),
        schedule,
    );
}

} // verus!
