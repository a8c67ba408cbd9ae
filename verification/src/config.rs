//! The configuration surface: how much of the call stack a report carries.

use vstd::prelude::*;

verus! {

/// Determines how backtraces will be displayed.
#[derive(Debug, PartialEq, Eq, Structural, Clone, Copy)]
pub enum BacktraceMode {
    /// Backtraces will be omitted from the log.
    Off,
    /// Backtraces will include addresses, but no symbol names or locations.
    Unresolved,
    /// Backtraces will include addresses as well as symbol names and
    /// locations when possible.
    Resolved,
}

/// Configures the panic hook.
///
/// Immutable once installed: a fresh install replaces the previous hook
/// together with the mode it had captured.
#[derive(Debug, PartialEq, Eq, Structural, Clone, Copy)]
pub struct Config {
    /// How the hook captures and renders the call stack.
    pub mode: BacktraceMode,
}

impl Config {
    /// Initializes the builder with the default set of features.
    pub fn new() -> (c: Config)
        ensures
            c.mode == BacktraceMode::Resolved,
    {
        Config { mode: BacktraceMode::Resolved }
    }

    /// Controls how backtraces are displayed.
    ///
    /// The default is [`BacktraceMode::Resolved`].
    pub fn backtrace_mode(self, mode: BacktraceMode) -> (c: Config)
        ensures
            c.mode == mode,
    {
        Config { mode }
    }
}

impl Default for Config {
    fn default() -> (c: Config)
        ensures
            c.mode == BacktraceMode::Resolved,
    {
        Config::new()
    }
}

} // verus!
