use vstd::prelude::*;

use crate::pattern::{regex_accepts, TargetPattern};
use crate::severity::{level_passes, Severity};

verus! {

/// Decides whether an incoming record is retained: its severity must pass the
/// configured minimum, and, when a target pattern is configured, its target
/// must match it.
pub struct RecordFilter {
    pub min_level: Severity,
    pub target_pattern: Option<TargetPattern>,
}

/// Whether `target` passes an optional configured pattern: an absent pattern
/// passes every target.
pub open spec fn pattern_passes(pattern: Option<TargetPattern>, target: Seq<char>) -> bool {
    match pattern {
        Some(p) => regex_accepts(p.pattern(), target),
        None => true,
    }
}

impl RecordFilter {
    /// Whether a record with the given severity and (raw, possibly empty)
    /// target is retained.
    pub open spec fn accepts_spec(&self, level: Severity, target: Seq<char>) -> bool {
        pattern_passes(self.target_pattern, target) && level_passes(level, self.min_level)
    }

    pub fn new(min_level: Severity, target_pattern: Option<TargetPattern>) -> (r: Self)
        ensures
            r.min_level == min_level,
            r.target_pattern == target_pattern,
    {
        RecordFilter { min_level, target_pattern }
    }

    /// Decides retention of one record. Pure: no side effects.
    pub fn accepts(&self, level: Severity, target: &str) -> (r: bool)
        ensures
            r == self.accepts_spec(level, target@),
    {
        let pattern_ok = match &self.target_pattern {
            Some(p) => p.matches(target),
            None => true,
        };
        pattern_ok && level.passes(self.min_level)
    }
}

} // verus!
