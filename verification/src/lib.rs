//! A verified TCP port scanner core: task generation, a bounded-concurrency
//! admission gate, a signature database with a line-oriented probe-file
//! parser, and a first-match-wins service fingerprint matcher.

pub mod channel;
pub mod gate;
pub mod matcher;
pub mod outside;
pub mod patterns;
pub mod ports;
pub mod report;
pub mod scanner;
pub mod sigfile;
pub mod targets;
pub mod text;
pub mod types;
