//! A composable request-processing pipeline: a service contract (readiness
//! probe plus invoke), decorators for structured logging, deadline
//! enforcement, bounded concurrency and rate-limited admission, and a builder
//! that assembles them in a documented order around a base handler.
//!
//! The asynchronous plumbing (task wakeups, timers, sockets) lives outside
//! this crate; here every decision those loops make — which side of a race
//! wins a scheduling pass, when a permit may be granted, when an admission
//! counter refills, what one call's log records contain — is a verified
//! function from state and event to next state and action.

pub mod limit;
pub mod logging;
pub mod pipeline;
pub mod rate;
pub mod request;
pub mod service;
pub mod timeout;
