//! Core library for a windowing/graphics engine: colour values, window and
//! cursor bookkeeping, input identifiers, trace-log levels and unit markers.
//!
//! Floating-point geometry (vectors, quaternions, matrices, the camera) lives
//! outside the verified core, since Verus does not accept floating-point
//! arithmetic; this crate holds the discrete state and bookkeeping that the
//! rest of the engine is built on.

use vstd::prelude::*;

pub mod camera;
pub mod color;
pub mod events;
pub mod gif;
pub mod graphics;
pub mod input;
pub mod rlgl;
pub mod units;
pub mod utils;
pub mod window;

verus! {

/// Trace log message categories.
/// NOTE: Organized by priority level
#[derive(Debug, Clone, Copy, PartialEq, Eq, Hash, Structural)]
pub enum TraceLogType {
    /// Trace logging, intended for internal use only
    Trace,
    /// Debug logging, used for internal debugging, it should be disabled on release builds
    Debug,
    /// Info logging, used for program execution info
    Info,
    /// Warning logging, used on recoverable failures
    Warning,
    /// Error logging, used on unrecoverable failures
    Error,
    /// Fatal logging, used to abort program
    Fatal,
}

impl TraceLogType {
    /// Numeric priority of the category; higher is more severe.
    pub open spec fn code_spec(self) -> u8 {
        match self {
            TraceLogType::Trace => 1,
            TraceLogType::Debug => 2,
            TraceLogType::Info => 3,
            TraceLogType::Warning => 4,
            TraceLogType::Error => 5,
            TraceLogType::Fatal => 6,
        }
    }

    /// Numeric priority of the category; higher is more severe.
    pub fn code(self) -> (r: u8)
        ensures
            r == self.code_spec(),
    {
        match self {
            TraceLogType::Trace => 1,
            TraceLogType::Debug => 2,
            TraceLogType::Info => 3,
            TraceLogType::Warning => 4,
            TraceLogType::Error => 5,
            TraceLogType::Fatal => 6,
        }
    }

    /// The category with the given priority, if any.
    pub fn from_code(value: u8) -> (r: Option<TraceLogType>)
        ensures
            match r {
                Some(t) => t.code_spec() == value,
                None => forall|t: TraceLogType| t.code_spec() != value,
            },
            forall|t: TraceLogType| t.code_spec() == value ==> r == Some(t),
    {
        match value {
            1 => Some(TraceLogType::Trace),
            2 => Some(TraceLogType::Debug),
            3 => Some(TraceLogType::Info),
            4 => Some(TraceLogType::Warning),
            5 => Some(TraceLogType::Error),
            6 => Some(TraceLogType::Fatal),
            _ => None,
        }
    }
}

impl Default for TraceLogType {
    /// Info, the category ordinary messages carry.
    fn default() -> (t: Self)
        ensures
            t == TraceLogType::Info,
    {
        TraceLogType::Info
    }
}

/// Trace log threshold.
/// NOTE: Organized by priority level
#[derive(Debug, Clone, Copy, PartialEq, Eq, Hash, Structural)]
pub enum TraceLogLevel {
    /// Display all logs
    All,
    /// Trace logging, intended for internal use only
    Trace,
    /// Debug logging, used for internal debugging, it should be disabled on release builds
    Debug,
    /// Info logging, used for program execution info
    Info,
    /// Warning logging, used on recoverable failures
    Warning,
    /// Error logging, used on unrecoverable failures
    Error,
    /// Fatal logging, used to abort program
    Fatal,
    /// Disable logging
    Disabled,
}

impl TraceLogLevel {
    /// Numeric priority of the threshold, aligned with `TraceLogType::code_spec`.
    pub open spec fn code_spec(self) -> u8 {
        match self {
            TraceLogLevel::All => 0,
            TraceLogLevel::Trace => 1,
            TraceLogLevel::Debug => 2,
            TraceLogLevel::Info => 3,
            TraceLogLevel::Warning => 4,
            TraceLogLevel::Error => 5,
            TraceLogLevel::Fatal => 6,
            TraceLogLevel::Disabled => 7,
        }
    }

    /// Numeric priority of the threshold, aligned with `TraceLogType::code`.
    pub fn code(self) -> (r: u8)
        ensures
            r == self.code_spec(),
    {
        match self {
            TraceLogLevel::All => 0,
            TraceLogLevel::Trace => 1,
            TraceLogLevel::Debug => 2,
            TraceLogLevel::Info => 3,
            TraceLogLevel::Warning => 4,
            TraceLogLevel::Error => 5,
            TraceLogLevel::Fatal => 6,
            TraceLogLevel::Disabled => 7,
        }
    }

    /// The threshold with the given priority, if any.
    pub fn from_code(value: u8) -> (r: Option<TraceLogLevel>)
        ensures
            match r {
                Some(l) => l.code_spec() == value,
                None => forall|l: TraceLogLevel| l.code_spec() != value,
            },
            forall|l: TraceLogLevel| l.code_spec() == value ==> r == Some(l),
    {
        match value {
            0 => Some(TraceLogLevel::All),
            1 => Some(TraceLogLevel::Trace),
            2 => Some(TraceLogLevel::Debug),
            3 => Some(TraceLogLevel::Info),
            4 => Some(TraceLogLevel::Warning),
            5 => Some(TraceLogLevel::Error),
            6 => Some(TraceLogLevel::Fatal),
            7 => Some(TraceLogLevel::Disabled),
            _ => None,
        }
    }

    /// True when a message of the given category passes this threshold:
    /// messages strictly below the threshold's priority are dropped.
    pub fn allows(self, ty: TraceLogType) -> (r: bool)
        ensures
            r == (ty.code_spec() >= self.code_spec()),
    {
        ty.code() >= self.code()
    }
}

impl Default for TraceLogLevel {
    /// Info, the engine's starting threshold.
    fn default() -> (l: Self)
        ensures
            l == TraceLogLevel::Info,
    {
        TraceLogLevel::Info
    }
}

/// The corresponding threshold for each message category.
pub open spec fn level_of_type_spec(value: TraceLogType) -> TraceLogLevel {
    match value {
        TraceLogType::Trace => TraceLogLevel::Trace,
        TraceLogType::Debug => TraceLogLevel::Debug,
        TraceLogType::Info => TraceLogLevel::Info,
        TraceLogType::Warning => TraceLogLevel::Warning,
        TraceLogType::Error => TraceLogLevel::Error,
        TraceLogType::Fatal => TraceLogLevel::Fatal,
    }
}

/// The corresponding threshold for each message category.
#[verifier::when_used_as_spec(level_of_type_spec)]
pub fn level_of_type(value: TraceLogType) -> (r: TraceLogLevel)
    ensures
        r == level_of_type_spec(value),
        r.code_spec() == value.code_spec(),
{
    match value {
        TraceLogType::Trace => TraceLogLevel::Trace,
        TraceLogType::Debug => TraceLogLevel::Debug,
        TraceLogType::Info => TraceLogLevel::Info,
        TraceLogType::Warning => TraceLogLevel::Warning,
        TraceLogType::Error => TraceLogLevel::Error,
        TraceLogType::Fatal => TraceLogLevel::Fatal,
    }
}

} // verus!
