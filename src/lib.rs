//! A debounced threshold-crossing state machine for processor utilization.
//!
//! Utilization readings and the threshold are integers in hundredths of a
//! percent (`2500` is 25%). Each call of [`evaluate`] classifies one reading as
//! above the threshold or at-or-below it, updates the streak counters, and
//! decides the next state, whether to raise an alert and whether to log.
pub mod machine;
pub mod laws;

pub use machine::{
    evaluate, evolve_cpu_state, CpuMonitor, CpuMonitorArgs, CpuMonitorOutput, CpuMonitorState,
    Settings,
};
