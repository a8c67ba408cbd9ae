//! The panic hook: the process-wide handler state and the callback body.
//!
//! Registering a callback with the runtime's fault-handling registry is an
//! outside effect this crate cannot perform itself; the caller that does
//! owns a [`HookState`] and keeps it in step with the registry by going
//! through [`Config::install_panic_hook`] and [`init`]. The callback body
//! is [`on_fault`]: from the fault context it builds exactly one complete
//! log record, never raising a further fault.

use vstd::prelude::*;

use crate::capture::{capture, capture_ok, Backtrace};
use crate::config::{BacktraceMode, Config};
use crate::payload::Payload;
use crate::render::{headline_spec, lemma_off_omits_backtrace, render_report, report_spec, Location};

verus! {

/// The process-wide singleton: which fault handler, if any, is currently
/// installed. Unset at process start; each install replaces it whole, and
/// it is never torn down.
pub struct HookState {
    /// The configuration captured by the currently installed hook, if one
    /// is installed.
    pub installed: Option<Config>,
}

/// The state a fresh install leaves behind: the new configuration governs,
/// and nothing of any earlier hook remains.
pub open spec fn install_spec(s: HookState, c: Config) -> HookState {
    HookState { installed: Option::Some(c) }
}

impl HookState {
    /// The state at process start: no hook installed.
    pub fn unset() -> (s: HookState)
        ensures
            s.installed is None,
    {
        HookState { installed: Option::None }
    }
}

impl Config {
    /// Initializes the panic hook: records this configuration as the one
    /// installed hook, replacing any previous one.
    ///
    /// The caller that owns the runtime registration registers a callback
    /// running [`on_fault`] with this same configuration at the same time.
    pub fn install_panic_hook(self, state: &mut HookState)
        ensures
            *final(state) == install_spec(*old(state), self),
    {
        state.installed = Option::Some(self);
    }
}

/// Initializes the panic hook with the default settings: a fresh install
/// of [`Config::new`], replacing any previous hook.
pub fn init(state: &mut HookState)
    ensures
        *final(state) == install_spec(*old(state), Config { mode: BacktraceMode::Resolved }),
{
    Config::new().install_panic_hook(state)
}

/// Installing twice leaves only the second configuration governing: the
/// state after two installs, whatever the first configured, is exactly the
/// state after the second install alone.
pub proof fn lemma_reinstall_overrides(s: HookState, c1: Config, c2: Config)
    ensures
        install_spec(install_spec(s, c1), c2) == install_spec(s, c2),
{
}

/// One structured record for the logging sink: the fixed target panic
/// reports are filed under, and the complete rendered line. Every record
/// this crate emits carries error severity.
pub struct LogRecord {
    /// The fixed category the sink files the record under.
    pub target: String,
    /// The complete report line.
    pub message: String,
}

/// The callback body: gathers the fault context, captures a stack as the
/// configured mode directs, and builds the one log record for this fault.
///
/// The captured stack depends on the machine and the moment, so the record
/// is pinned up to it: the message is exactly `report_spec` of the inputs
/// and some stack that the configured mode admits — empty under `Off`,
/// symbol-free under `Unresolved`.
pub fn on_fault(
    config: &Config,
    thread_name: Option<&str>,
    payload: &Payload,
    location: &Option<Location>,
) -> (rec: LogRecord)
    ensures
        rec.target@ == "panic"@,
        exists|bt: Backtrace|
            #[trigger] capture_ok(config.mode, bt) && rec.message@ == report_spec(
                config.mode,
                thread_name,
                *payload,
                *location,
                bt.frames@,
            ),
        config.mode == BacktraceMode::Off ==> rec.message@ == headline_spec(
            thread_name,
            *payload,
            *location,
        ),
{
    let bt = capture(config.mode);
    let message = render_report(config.mode, thread_name, payload, location, &bt);
    proof {
        assert(capture_ok(config.mode, bt) && message@ == report_spec(
            config.mode,
            thread_name,
            *payload,
            *location,
            bt.frames@,
        ));
        if config.mode == BacktraceMode::Off {
            lemma_off_omits_backtrace(thread_name, *payload, *location, bt.frames@);
        }
    }
    LogRecord { target: "panic".to_owned(), message }
}

} // verus!
