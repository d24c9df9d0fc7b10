use vstd::prelude::*;

verus! {

/// Importance ranking of a log record, ordered as the logging facade orders
/// its levels: `Error` is the most severe, `Trace` the least.
#[derive(Clone, Copy, PartialEq, Eq, Structural, Debug)]
pub enum Severity {
    Error,
    Warn,
    Info,
    Debug,
    Trace,
}

/// Numeric rank of a severity: a lower rank means a more severe level.
pub open spec fn severity_rank(s: Severity) -> int {
    match s {
        Severity::Error => 1,
        Severity::Warn => 2,
        Severity::Info => 3,
        Severity::Debug => 4,
        Severity::Trace => 5,
    }
}

/// Whether a record of severity `level` passes a configured minimum `min`:
/// it is retained iff it is at least as severe as the minimum.
pub open spec fn level_passes(level: Severity, min: Severity) -> bool {
    severity_rank(level) <= severity_rank(min)
}

/// The level's name left-padded with spaces to five characters, exactly as it
/// appears in a formatted line.
pub open spec fn padded_label(s: Severity) -> Seq<char> {
    match s {
        Severity::Error => "ERROR"@,
        Severity::Warn => "WARN "@,
        Severity::Info => "INFO "@,
        Severity::Debug => "DEBUG"@,
        Severity::Trace => "TRACE"@,
    }
}

impl Severity {
    /// The numeric rank of this level; equal to `severity_rank`.
    pub fn rank(self) -> (r: u8)
        ensures
            r as int == severity_rank(self),
    {
        match self {
            Severity::Error => 1,
            Severity::Warn => 2,
            Severity::Info => 3,
            Severity::Debug => 4,
            Severity::Trace => 5,
        }
    }

    /// Whether this level passes the configured minimum `min`.
    pub fn passes(self, min: Severity) -> (r: bool)
        ensures
            r == level_passes(self, min),
    {
        self.rank() <= min.rank()
    }

    /// The five-character label of this level.
    pub fn label(self) -> (r: &'static str)
        ensures
            r@ == padded_label(self),
    {
        match self {
            Severity::Error => "ERROR",
            Severity::Warn => "WARN ",
            Severity::Info => "INFO ",
            Severity::Debug => "DEBUG",
            Severity::Trace => "TRACE",
        }
    }
}

} // verus!
