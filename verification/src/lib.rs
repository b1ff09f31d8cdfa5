//! Diagnostic harness core: a registry of named probes, a sequential
//! dispatcher that resolves, times and reports them, and the pure decision
//! logic of each probe.

pub mod dispatch;
pub mod fanout;
pub mod fs_probe;
pub mod registry;
pub mod report;
pub mod stopwatch;
pub mod switch;
pub mod tcp_probe;
pub mod text;
pub mod tls;
