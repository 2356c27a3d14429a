//! Multi-tick control flow for a tick-stepped host.
//!
//! A host that can only run short, non-blocking units of work per step drives
//! [`task::Task`]s, each of which walks a sequential computation from one awaited
//! action to the next. An awaited [`action::Action`] is realized into a
//! [`runner::Runner`], which is polled once per occurrence of its phase until
//! it reports completion; what it has put out is then handed to the computation,
//! which runs on to its next await.
//!
//! The engine ([`runner`], [`action::seed`], [`action::sequence`], [`task`],
//! [`scheduler`]) does not depend on the host. The actions of [`action::once`]
//! and [`action::record`] work on the world of bevy, through [`world`].

pub mod action;
pub mod runner;
pub mod scheduler;
pub mod task;
pub mod world;
