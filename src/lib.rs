//! Per-process and per-thread CPU usage sampling, with the normalisation of
//! platform time counters, the usage-delta computation, and the bookkeeping
//! behind allocation, I/O and memory statistics.
//!
//! The operating-system readers live outside this crate: they hand the
//! library plain values (raw time counters, monotonic instants, text of
//! `/proc` files), and the library turns them into results whose meaning is
//! stated in each function's contract.

pub mod cpu;
pub mod fd;
pub mod io;
pub mod mem;
pub mod time;
pub mod usage;
