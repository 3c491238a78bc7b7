//! A small web console, verified.
//!
//! The library models the two components of the console: a route
//! dispatcher that maps request paths to handlers by exact match, and
//! session-gated responders that pick a payload from the run-time
//! authentication configuration and the optional session attached to a
//! request. The HTTP and logging plumbing around it lives outside the
//! library and hands it plain values.

pub mod api;
pub mod routing;
pub mod session;
pub mod startup;
pub mod text;
