//! Bridge between a blocking parameter fit and a host that must not block.
//!
//! A fit of scheduler parameters runs for a long time on a worker thread. The
//! types here decide what the supervising thread does meanwhile: when it reads
//! the shared progress cell, which snapshot it hands to the host's callback,
//! when it stops polling and joins the worker, and which outcome it resolves
//! to. The threads, the sleep and the callback itself belong to the caller.
//!
//! - [`review`]: review histories and what makes them valid training data.
//! - [`options`]: the caller's options and the settings they resolve to.
//! - [`progress`]: readings of the progress cell and the snapshots made of them.
//! - [`coordinator`]: the state machine that drives a run.
//! - [`task`]: a fitting task, from its preparation to its resolution.
//! - [`worker`]: the fit under the model's lock, as the worker thread runs it.
//! - [`error`]: the failures of a run and their messages.
//! - [`parameters`]: the parameter vector of a model.
//! - [`laws`]: what is proved of every run.
//! - [`outside`]: what is taken on trust from the crates underneath.

pub mod coordinator;
pub mod error;
pub mod laws;
pub mod options;
pub mod outside;
pub mod parameters;
pub mod progress;
pub mod review;
pub mod task;
pub mod worker;
