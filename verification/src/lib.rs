//! Signal identity: validated conversion between raw OS signal numbers and
//! typed signal values, together with the platform classification that decides
//! which named-signal table and real-time window apply.
//!
//! The crate is split along the two halves of the problem:
//!
//! - [`platform`] derives categorical facts (BSD-family, Linux-kernel-based,
//!   and so on) from a target operating-system identifier;
//! - [`table`] holds the per-platform table of named signal numbers;
//! - [`mapper`] classifies a raw number against that table and a real-time
//!   window, and proves the classification laws;
//! - [`host`] queries the running C library for its real-time bounds;
//! - [`signal_ext`] exposes the conversions on the [`signal_ext::Sig`]
//!   value type for the build target.

pub mod host;
pub mod mapper;
pub mod platform;
pub mod signal_ext;
pub mod table;
