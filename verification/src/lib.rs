//! A background job that runs the external `m2c` decompiler helper on one
//! named function of a user's project and reports its progress to a host
//! job runner.
//!
//! The heart of the crate is the job execution contract: the job body is a
//! state machine ([`job::M2CJob`]) that, step by step, tells a host-side
//! driver what to do next (poll the cancel signal, push a status update,
//! spawn the child process, log its output) and consumes the outcome of each
//! action. Every transition is pinned by [`job::steps_to`], and the
//! protocol-wide guarantees (exactly two status updates per successful run,
//! no side effects without a project directory, cancellation honored only at
//! the two checkpoints) are proved in [`protocol`].

pub mod config;
pub mod job;
pub mod protocol;
