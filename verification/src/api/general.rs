//! General requests answered without the settings.

use vstd::prelude::*;

verus! {

/// How important a message from the front-end is.
#[derive(Debug, Clone, Copy, PartialEq, Eq, Structural)]
pub enum FrontEndLogLevel {
    Trace,
    Debug,
    Info,
    Warn,
    Error,
}

/// The level of a front-end log level number: 1 trace, 2 debug, 3 info, 4 warn, 5 error,
/// anything else trace.
pub open spec fn level_of(level: u8) -> FrontEndLogLevel {
    if level == 2 {
        FrontEndLogLevel::Debug
    } else if level == 3 {
        FrontEndLogLevel::Info
    } else if level == 4 {
        FrontEndLogLevel::Warn
    } else if level == 5 {
        FrontEndLogLevel::Error
    } else {
        FrontEndLogLevel::Trace
    }
}

/// How to log a message from the front-end: its level, and the line to log.
pub fn log_msg_by_level(level: u8, msg: &str) -> (r: (FrontEndLogLevel, String))
    ensures
        r.0 == level_of(level),
        r.1@ == "FRONT-END: "@ + msg@,
{
    let l = match level {
        1 => FrontEndLogLevel::Trace,
        2 => FrontEndLogLevel::Debug,
        3 => FrontEndLogLevel::Info,
        4 => FrontEndLogLevel::Warn,
        5 => FrontEndLogLevel::Error,
        _ => FrontEndLogLevel::Trace,
    };
    (l, String::from_str("FRONT-END: ").concat(msg))
}

} // verus!
