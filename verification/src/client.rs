use crate::sleep::{SleepState, SleepTask};
use crate::sum::{initial_state, SumTask};
use std::sync::Arc;
use std::time::Duration;
use tokio::runtime::{Builder, Runtime};
use vstd::prelude::*;

verus! {

/// The executor of `tokio` on which the races run. Its contents are opaque here.
#[verifier::external_type_specification]
#[verifier::external_body]
pub struct ExRuntime(Runtime);

/// The error with which the operating system refuses what an executor needs.
#[verifier::external_type_specification]
#[verifier::external_body]
pub struct ExIoError(std::io::Error);

/// Why a handle could not be made: its executor could not be created. Nothing at this level
/// can recover from it.
#[derive(Debug)]
pub struct RuntimeInitError(pub std::io::Error);

/// A client handle. It owns one executor from its construction to its end, and every race
/// started through the handle runs on that executor.
#[derive(Debug)]
pub struct IncrementerClient {
    runtime: Arc<Runtime>,
}

/// Creates a single-threaded executor with all its drivers enabled, by
/// `Builder::new_current_thread`, `Builder::enable_all` and `Builder::build`. Nothing is claimed
/// of the outcome: `build` fails when the operating system does not grant what the executor
/// needs.
#[verifier::external_body]
fn build_runtime() -> (built: Result<Runtime, std::io::Error>) {
    Builder::new_current_thread().enable_all().build()
}

impl IncrementerClient {
    /// The executor that the handle owns.
    pub closed spec fn executor(&self) -> Runtime {
        *self.runtime
    }

    /// Makes the handle that owns `built`, or reports why there is no executor to own.
    pub fn from_built(built: Result<Runtime, std::io::Error>) -> (res: Result<
        IncrementerClient,
        RuntimeInitError,
    >)
        ensures
            match built {
                Ok(runtime) => res is Ok && res->Ok_0.executor() == runtime,
                Err(cause) => res == Err::<IncrementerClient, RuntimeInitError>(
                    RuntimeInitError(cause),
                ),
            },
    {
        match built {
            Ok(runtime) => Ok(IncrementerClient { runtime: Arc::new(runtime) }),
            Err(cause) => Err(RuntimeInitError(cause)),
        }
    }

    /// Makes a handle with an executor of its own.
    pub fn new() -> (res: Result<IncrementerClient, RuntimeInitError>) {
        IncrementerClient::from_built(build_runtime())
    }

    /// The executor on which the races of this handle are to be run: the same one at every call.
    pub fn runtime(&self) -> (runtime: &Runtime)
        ensures
            *runtime == self.executor(),
    {
        &*self.runtime
    }

    /// Starts the sum of `a` and `b` on this handle: the task that a race is to drive.
    pub fn sum(&self, a: usize, b: usize, sleepy: bool) -> (task: SumTask)
        requires
            a + b <= usize::MAX,
        ensures
            task@ == initial_state(a as nat, b as nat, sleepy),
    {
        SumTask::new(a, b, sleepy)
    }

    /// Starts a sleep of `duration` on this handle: the task that a race is to drive.
    pub fn sleep_unless_interrupted(&self, duration: Duration) -> (task: SleepTask)
        ensures
            task@ == (SleepState { duration, waited: false }),
    {
        SleepTask::new(duration)
    }
}

} // verus!
