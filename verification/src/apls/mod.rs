//! Bounded VM observations: which command lines ask for one, what the runner
//! is asked to do, and how the outcome is reported.
pub mod flag;
pub mod laws;
pub mod options;
pub mod outcome;
pub mod report_laws;
pub mod request;
pub mod request_laws;
pub mod rule_laws;

pub use flag::Flag;
pub use options::{Backend, Firmware, Host, Rule, RunOptions, UsageError};
pub use outcome::{outcome_exit, receipt_file, RecoveryProgress, RunOutcome};
pub use request::{RequestError, RunArgs, RunnerBackend, RunnerHost, RunnerRequest};
