use crate::signal::FatalPythonException;
use pyo3::{PyErr, Python};
use vstd::prelude::*;

verus! {

/// Milliseconds that the poller sleeps before each query of the interrupt authority.
pub const SIGNAL_CHECK_INTERVAL: u64 = 100;

/// What the poller does next.
#[derive(Debug)]
pub enum PollStep {
    /// Nothing was raised: sleep for `millis` milliseconds, then ask again.
    Sleep { millis: u64 },
    /// The authority reported an interrupt: the poller ends with this signal.
    Fatal(FatalPythonException),
}

/// The step that follows one answer of the interrupt authority. Any answer that is not clean is
/// the interrupt itself: there is no separate error channel.
pub open spec fn poll_verdict(answer: Result<(), PyErr>) -> PollStep {
    match answer {
        Ok(_) => PollStep::Sleep { millis: SIGNAL_CHECK_INTERVAL },
        Err(err) => PollStep::Fatal(FatalPythonException(err)),
    }
}

/// Decides on the poller's next step from one answer of the interrupt authority.
pub fn poll_decision(answer: Result<(), PyErr>) -> (step: PollStep)
    ensures
        step == poll_verdict(answer),
{
    match answer {
        Ok(_) => PollStep::Sleep { millis: SIGNAL_CHECK_INTERVAL },
        Err(err) => PollStep::Fatal(FatalPythonException::from(err)),
    }
}

/// Asks the interrupt authority: takes the interpreter lock with `Python::with_gil`, lets
/// `Python::check_signals` run the handlers of the signals that are pending, and gives the lock
/// back, all within this call, so that the lock is held for the query alone. Nothing is claimed
/// of the answer: it depends on the signals that the process has received and on what their
/// handlers do. `pyo3` is built here to start an interpreter where none is running, so the lock
/// is there to be taken.
#[verifier::external_body]
fn check_signals() -> (answer: Result<(), PyErr>) {
    Python::with_gil(|py| py.check_signals())
}

/// The interrupt poller of one race. It is made anew for every race, and holds no more than
/// whether its first sleep has been handed out.
#[derive(Debug)]
pub struct Poller {
    started: bool,
}

impl Poller {
    /// Whether the poller has been asked for a step before.
    pub closed spec fn started(&self) -> bool {
        self.started
    }

    /// A poller that has not run yet.
    pub fn new() -> (poller: Poller)
        ensures
            !poller.started(),
    {
        Poller { started: false }
    }
}

/// One round of the interrupt poller, to be called each time the poller is resumed.
///
/// The first round asks nothing and hands out a sleep. Every later round asks the interrupt
/// authority once, and either hands out another sleep or ends the poller with the fatal signal.
/// The poller never ends in any other way.
pub fn check_signals_in_background(poller: &mut Poller) -> (step: PollStep)
    ensures
        final(poller).started(),
        !old(poller).started() ==> step == (PollStep::Sleep { millis: SIGNAL_CHECK_INTERVAL }),
        step is Sleep ==> step->millis == SIGNAL_CHECK_INTERVAL,
{
    if !poller.started {
        poller.started = true;
        PollStep::Sleep { millis: SIGNAL_CHECK_INTERVAL }
    } else {
        poll_decision(check_signals())
    }
}

/// The signal with which a poller ends when the interrupt authority would give `answers` in
/// this order, one for each query: the first answer that is not clean ends the poller, and the
/// answers after it are never asked for. `None` where the poller is still running after the
/// last of them.
pub open spec fn poller_signal(answers: Seq<Result<(), PyErr>>) -> Option<FatalPythonException>
    decreases answers.len(),
{
    if answers.len() == 0 {
        None
    } else {
        match poll_verdict(answers[0]) {
            PollStep::Fatal(signal) => Some(signal),
            PollStep::Sleep { .. } => poller_signal(answers.skip(1)),
        }
    }
}

/// The number of queries that a poller makes of `answers`. It sleeps once before each of them.
pub open spec fn queries_made(answers: Seq<Result<(), PyErr>>) -> nat
    decreases answers.len(),
{
    if answers.len() == 0 {
        0
    } else if answers[0] is Err {
        1
    } else {
        1 + queries_made(answers.skip(1))
    }
}

/// No interrupt, no signal: while every answer is clean the poller goes on sleeping and asking.
pub proof fn lemma_clean_answers_never_fire(answers: Seq<Result<(), PyErr>>)
    requires
        forall|k: int| 0 <= k < answers.len() ==> answers[k] is Ok,
    ensures
        poller_signal(answers) is None,
        queries_made(answers) == answers.len(),
    decreases answers.len(),
{
    if answers.len() > 0 {
        lemma_clean_answers_never_fire(answers.skip(1));
    }
}

/// An interrupt is neither swallowed nor delayed: the first answer that is not clean ends the
/// poller at that very query, with a signal that holds the authority's exception unchanged.
pub proof fn lemma_first_interrupt_fires(answers: Seq<Result<(), PyErr>>, at: int)
    requires
        0 <= at < answers.len(),
        answers[at] is Err,
        forall|k: int| 0 <= k < at ==> answers[k] is Ok,
    ensures
        poller_signal(answers) == Some(FatalPythonException(answers[at]->Err_0)),
        queries_made(answers) == at + 1,
    decreases at,
{
    if at > 0 {
        lemma_first_interrupt_fires(answers.skip(1), at - 1);
    }
}

/// The answers to `len` queries, the first made one interval after the poller started and each
/// one interval after the one before, when an interrupt is raised `raised_at` milliseconds
/// after the start and reported with `payload` by every query from then on.
pub open spec fn answers_around(raised_at: nat, payload: PyErr, len: nat) -> Seq<Result<(), PyErr>> {
    Seq::new(
        len,
        |k: int|
            if (k + 1) * SIGNAL_CHECK_INTERVAL >= raised_at {
                Err(payload)
            } else {
                Ok(())
            },
    )
}

/// Bound on the time to react. Counting only the poller's sleeps, an interrupt that is raised
/// `raised_at` milliseconds after the start ends the poller at most one interval later, at the
/// first query that is made once it has been raised.
pub proof fn lemma_interrupt_seen_within_one_interval(raised_at: nat, payload: PyErr, len: nat)
    requires
        len >= 1,
        len * SIGNAL_CHECK_INTERVAL >= raised_at,
    ensures
        poller_signal(answers_around(raised_at, payload, len)) == Some(
            FatalPythonException(payload),
        ),
        raised_at <= queries_made(answers_around(raised_at, payload, len)) * SIGNAL_CHECK_INTERVAL
            <= raised_at + SIGNAL_CHECK_INTERVAL,
{
    let answers = answers_around(raised_at, payload, len);
    let at: int = if raised_at == 0 {
        0
    } else {
        (raised_at - 1) / (SIGNAL_CHECK_INTERVAL as int)
    };
    lemma_first_interrupt_fires(answers, at);
}

/// Reuse of a handle. A race that an interrupt ended leaves nothing behind: the poller of the
/// next race on the same handle starts anew, so that race is not interrupted while its own
/// queries come back clean.
pub proof fn lemma_next_race_is_not_interrupted(
    earlier: Seq<Result<(), PyErr>>,
    at: int,
    later: Seq<Result<(), PyErr>>,
)
    requires
        0 <= at < earlier.len(),
        earlier[at] is Err,
        forall|k: int| 0 <= k < at ==> earlier[k] is Ok,
        forall|k: int| 0 <= k < later.len() ==> later[k] is Ok,
    ensures
        poller_signal(earlier) is Some,
        poller_signal(later) is None,
{
    lemma_first_interrupt_fires(earlier, at);
    lemma_clean_answers_never_fire(later);
}

} // verus!
