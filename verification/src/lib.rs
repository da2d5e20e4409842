//! A container-metrics collection agent library.
//!
//! The agent periodically discovers the running containers on a host,
//! samples each container's cumulative resource counters twice in quick
//! succession, derives rate-based metrics (CPU utilization, network byte
//! deltas) and point-in-time metrics (memory usage), normalizes container
//! names into display names, and assembles one ordered report per cycle.
//!
//! This crate holds the verified core: the metrics arithmetic with its edge
//! cases (zero or regressing counters, divide-by-zero), name normalization,
//! report assembly, the HTTP request/response framing used to talk to the
//! runtime, and the reporting loop's control decisions. All I/O (the unix
//! socket to the container runtime, JSON decoding of its responses, and the
//! HTTP delivery of the report) lives outside the library.

pub mod control;
pub mod metrics;
pub mod names;
pub mod report;
pub mod transport;
