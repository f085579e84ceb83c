//! An interruptible bridge from blocking callers to asynchronous work.
//!
//! A computation is raced against a poller that asks the Python interpreter, at a fixed
//! interval, whether an interrupt has come in. Whichever of the two finishes first decides what
//! the caller gets: the computation's own result, or the interrupt as a fatal signal.
//!
//! The library holds every decision of that race and none of its waiting. The poller, the sum
//! and the sleep are machines that are asked for one step at a time; each step names the wait
//! that the executor is to perform before it asks again. What is proved of them is stated in
//! their contracts and in the laws beside them.

pub mod client;
pub mod poller;
pub mod race;
pub mod signal;
pub mod sleep;
pub mod sum;
