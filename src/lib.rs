//! A periodic health-check runner.
//!
//! Probes are executables found under a root directory. Each pass runs every
//! probe, classifies how it ended, and turns the failures into one alert
//! report that is written to a status artifact. This library holds the
//! decisions of that runner; the program around it walks the directory,
//! spawns the probes, writes the artifact and sleeps.

mod alert;
mod artifact;
mod decimal;
mod probe;
mod report;
mod schedule;

pub use alert::{alert_actions, alert_actions_for_stdout, banner, AlertActions};
pub use artifact::{
    all_clean, artifact_after, artifact_writes, clean_pass_is_silent, clean_passes_never_write,
    empty_pass_alerts, failure_keeps_later_probes, report_blocks_concat,
    second_alert_replaces_first,
};
pub use decimal::{decimal_text, digit_char, int_decimal, nat_digits};
pub use probe::{classified, classify, utf8_lossy, ExecutionResult, SpawnOutcome};
pub use report::{
    any_failure, block, failure_block, no_checks_message, opt_text, pass_alert, pass_report,
    report_blocks,
};
pub use schedule::{
    loop_mode_spacing, replay, single_pass_runs_once, transition, Action, Event, Phase, Scheduler,
    DELAY_SECS, GRACE_SECS,
};
