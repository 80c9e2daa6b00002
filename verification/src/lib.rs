//! Verified core of a virtual rotating-distance-sensor harness.
//!
//! The library synthesizes angle/distance/quality telemetry in fixed-point
//! milli-units, formats it as ASCII stream lines and CSV, and models the
//! endpoint polling and streaming decisions of the surrounding tooling,
//! which owns the processes, threads and device files around it.

pub mod awaiter;
pub mod link;
pub mod sample;
pub mod scan;
pub mod streamer;
pub mod textfmt;
pub mod trig;
