use vstd::prelude::*;

verus! {

/// The host-side log levels the diagnostics bridge forwards to.
#[derive(Clone, Copy, Debug, PartialEq, Eq, Structural)]
pub enum LogLevel {
    Error,
    Warn,
    Info,
    Trace,
}

/// The driver's severity bit for verbose messages.
pub const SEVERITY_VERBOSE: u32 = 0x1;

/// The driver's severity bit for informational messages.
pub const SEVERITY_INFO: u32 = 0x10;

/// The driver's severity bit for warnings.
pub const SEVERITY_WARNING: u32 = 0x100;

/// The driver's severity bit for errors.
pub const SEVERITY_ERROR: u32 = 0x1000;

/// Classifies a driver severity bitmask for the structured log:
/// error-level messages go to the error log, warnings to the warning
/// log, informational messages to the info log, and everything below
/// (verbose) to the trace log. The comparison is numeric on the raw
/// bitmask, matching the driver's ascending severity encoding. The
/// bridge itself never fails: whatever the driver passes, some level
/// comes back, and the callback always tells the driver to continue.
pub fn classify_severity(severity: u32) -> (r: LogLevel)
    ensures
        severity >= SEVERITY_ERROR ==> r == LogLevel::Error,
        SEVERITY_WARNING <= severity < SEVERITY_ERROR ==> r == LogLevel::Warn,
        SEVERITY_INFO <= severity < SEVERITY_WARNING ==> r == LogLevel::Info,
        severity < SEVERITY_INFO ==> r == LogLevel::Trace,
{
    if severity >= SEVERITY_ERROR {
        LogLevel::Error
    } else if severity >= SEVERITY_WARNING {
        LogLevel::Warn
    } else if severity >= SEVERITY_INFO {
        LogLevel::Info
    } else {
        LogLevel::Trace
    }
}

} // verus!
