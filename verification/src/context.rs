//! The API context: instance-level configuration.
//!
//! The instance itself is opened by the platform layer; what belongs here
//! is the decision logic around it: whether the validation layer is
//! enabled, and how severity-tagged diagnostics from the debug callback
//! are routed.  Diagnostics are observability only, never control flow.

use vstd::prelude::*;

verus! {

/// The name of the engine, used to identify it when the instance is
/// created.
pub const ENGINE_NAME: &'static str = "Amethyst";

/// The name of the application, for the same purpose as the engine name.
pub const APPLICATION_NAME: &'static str = "Amethyst application";

/// The name of the validation layer enabled in debug configurations.
pub const VALIDATION_LAYER: &'static str = "VK_LAYER_KHRONOS_validation";

/// Decide whether the validation layer is enabled: only when validation
/// is requested and the instance actually offers the layer. A missing
/// layer silently disables validation; it is never fatal.
pub fn select_validation(requested: bool, layer_available: bool) -> (r: bool)
    ensures
        r == (requested && layer_available),
{
    requested && layer_available
}

/// The severity of a message the debug callback delivers.
#[derive(Debug, Clone, Copy, PartialEq, Eq, Structural)]
pub enum DebugSeverity {
    Error,
    Warning,
    Info,
    Verbose,
}

/// The log level a debug message of the given severity is routed to.
#[derive(Debug, Clone, Copy, PartialEq, Eq, Structural)]
pub enum LogLevel {
    Error,
    Warn,
    Info,
    Debug,
}

/// Route a debug-callback severity to a log level. This is observability
/// only: no severity changes control flow.
pub fn route_severity(severity: DebugSeverity) -> (r: LogLevel)
    ensures
        severity is Error <==> r is Error,
        severity is Warning <==> r is Warn,
        severity is Info <==> r is Info,
        severity is Verbose <==> r is Debug,
{
    match severity {
        DebugSeverity::Error => LogLevel::Error,
        DebugSeverity::Warning => LogLevel::Warn,
        DebugSeverity::Info => LogLevel::Info,
        DebugSeverity::Verbose => LogLevel::Debug,
    }
}

} // verus!
