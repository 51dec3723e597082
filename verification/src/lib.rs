//! A background polling backend for XInput-style game controllers.
//!
//! The library turns periodic snapshots of raw controller state into a
//! stream of discrete events: a sampler steps a fixed set of device slots,
//! detects connect/disconnect transitions, and diffs each new snapshot
//! against the previous one field by field. A static code table maps the
//! native button bits and axis indices to a portable event-code space with
//! per-axis calibration data, and a facade hands the event stream to the
//! consumer without ever blocking it.
//!
//! All hardware access (the native state queries and the thread that runs
//! the sampling loop) lives outside this crate; the library receives plain
//! poll outcomes and decides everything from there.

pub mod codes;
pub mod diff;
pub mod events;
pub mod facade;
pub mod gamepad;
pub mod sampler;
