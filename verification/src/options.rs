//! What a caller may choose for one fitting run.

use vstd::prelude::*;

verus! {

/// The polling interval of a run whose options give none, in milliseconds.
pub const DEFAULT_POLLING_INTERVAL_MS: u64 = 500;

/// The relearning steps of a run whose options name none. It is the number
/// that the fitting algorithm itself falls back on.
pub const DEFAULT_RELEARNING_STEPS: usize = 1;

/// Options of one fitting run.
#[derive(Clone, Copy, Debug, PartialEq, Eq, Structural)]
pub struct ComputeParametersOption {
    /// Whether the short-term memory parameters are fitted too.
    pub enable_short_term: bool,
    /// Number of relearning steps; [`DEFAULT_RELEARNING_STEPS`] if absent.
    pub num_relearning_steps: Option<usize>,
    /// Whether the caller supplied a progress callback.
    pub progress: bool,
    /// Milliseconds between two progress snapshots.
    pub timeout: Option<u64>,
}

impl ComputeParametersOption {
    /// A polling interval, where one is given, is a positive duration.
    pub open spec fn wf(self) -> bool {
        self.timeout != Some(0u64)
    }

    /// Computes [`ComputeParametersOption::wf`].
    pub fn is_valid(&self) -> (ok: bool)
        ensures
            ok == self.wf(),
    {
        match self.timeout {
            Some(t) => t != 0,
            None => true,
        }
    }
}

/// What a run goes by once its options are read.
#[derive(Clone, Copy, Debug, PartialEq, Eq, Structural)]
pub struct TaskSettings {
    pub enable_short_term: bool,
    pub num_relearning_steps: usize,
    /// Whether progress snapshots are wanted.
    pub report_progress: bool,
    /// Milliseconds between two progress snapshots.
    pub progress_timeout: u64,
}

/// Short-term fitting is on unless the options turn it off.
pub open spec fn short_term_of(options: Option<ComputeParametersOption>) -> bool {
    match options {
        Some(o) => o.enable_short_term,
        None => true,
    }
}

/// The relearning steps: the number given, else the default.
pub open spec fn relearning_steps_of(options: Option<ComputeParametersOption>) -> usize {
    match options {
        Some(ComputeParametersOption { num_relearning_steps: Some(n), .. }) => n,
        _ => DEFAULT_RELEARNING_STEPS,
    }
}

/// Progress is reported only to a callback that the options supply.
pub open spec fn reports_progress(options: Option<ComputeParametersOption>) -> bool {
    match options {
        Some(o) => o.progress,
        None => false,
    }
}

/// The polling interval: the one given, else the default.
pub open spec fn polling_interval_of(options: Option<ComputeParametersOption>) -> u64 {
    match options {
        Some(ComputeParametersOption { timeout: Some(t), .. }) => t,
        _ => DEFAULT_POLLING_INTERVAL_MS,
    }
}

/// The settings that the options stand for; without options, the defaults.
pub open spec fn settings_of(options: Option<ComputeParametersOption>) -> TaskSettings {
    TaskSettings {
        enable_short_term: short_term_of(options),
        num_relearning_steps: relearning_steps_of(options),
        report_progress: reports_progress(options),
        progress_timeout: polling_interval_of(options),
    }
}

/// Computes [`settings_of`].
pub fn resolve(options: Option<ComputeParametersOption>) -> (settings: TaskSettings)
    ensures
        settings == settings_of(options),
        (options matches Some(o) ==> o.wf()) ==> settings.progress_timeout > 0,
{
    match options {
        Some(o) => TaskSettings {
            enable_short_term: o.enable_short_term,
            num_relearning_steps: match o.num_relearning_steps {
                Some(n) => n,
                None => DEFAULT_RELEARNING_STEPS,
            },
            report_progress: o.progress,
            progress_timeout: match o.timeout {
                Some(t) => t,
                None => DEFAULT_POLLING_INTERVAL_MS,
            },
        },
        None => TaskSettings {
            enable_short_term: true,
            num_relearning_steps: DEFAULT_RELEARNING_STEPS,
            report_progress: false,
            progress_timeout: DEFAULT_POLLING_INTERVAL_MS,
        },
    }
}

} // verus!
