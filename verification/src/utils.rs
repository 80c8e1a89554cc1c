//! Trace-log bookkeeping: the minimum level threshold and the rule deciding
//! which messages are emitted.
//!
//! Formatting and writing the messages is I/O and happens outside the
//! verified core; the decision of whether a message passes is made here.

use vstd::prelude::*;
use crate::{TraceLogLevel, TraceLogType};

verus! {

/// Trace-log state: the minimum level that is emitted.
#[derive(Debug, Clone, Copy, PartialEq, Eq, Structural)]
pub struct TraceLog {
    /// Minimum log type level
    pub level: TraceLogLevel,
}

impl TraceLog {
    /// Fresh trace-log state; informational messages and above are emitted.
    pub fn new() -> (t: Self)
        ensures
            t.level == TraceLogLevel::Info,
    {
        Self { level: TraceLogLevel::Info }
    }
}

impl Default for TraceLog {
    /// Same as [`TraceLog::new`]: threshold at Info.
    fn default() -> (t: Self)
        ensures
            t.level == TraceLogLevel::Info,
    {
        Self::new()
    }
}

/// Current minimum log type level.
pub fn log_type_level(log: &TraceLog) -> (r: TraceLogLevel)
    ensures
        r == log.level,
{
    log.level
}

/// Set the minimum log type level.
pub fn set_log_type_level(log: &mut TraceLog, level: TraceLogLevel)
    ensures
        final(log).level == level,
{
    log.level = level;
}

/// True when a message of the given category is emitted: exactly when its
/// priority is not below the configured threshold.
pub fn should_emit(log: &TraceLog, ty: TraceLogType) -> (r: bool)
    ensures
        r == (ty.code_spec() >= log.level.code_spec()),
{
    log.level.allows(ty)
}

} // verus!
