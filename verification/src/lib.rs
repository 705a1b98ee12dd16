//! Per-flow state tracking and feature extraction for network traffic
//! analysis.
//!
//! For every network flow (identified by a five-tuple), the library consumes
//! a sequence of directional packet views, accumulates protocol- and
//! timing-derived statistics incrementally, optionally records an
//! application-layer session event, and emits exactly one immutable summary
//! record when the flow's lifetime ends.

pub mod catalog;
pub mod conn_features;
pub mod connection_features;
pub mod counters;
pub mod features;
pub mod lifecycle;
pub mod packet;
pub mod packet_features;
pub mod stats;
pub mod subscription;
pub mod timing;
pub mod types;
