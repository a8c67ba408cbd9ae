//! Routes uncaught panics through a structured logging facility instead of
//! letting them print to standard error, in the same human-readable format
//! the runtime would have used, optionally enriched with a captured call
//! stack.
//!
//! The crate is organised around plain data: the panic payload, the source
//! location and the captured stack are modelled as ordinary values, and the
//! whole report line is specified character by character. The caller that
//! registers the process-wide hook keeps a [`HookState`] in step with the
//! runtime's registry, hands the fault context to [`on_fault`], and emits
//! the one complete [`LogRecord`] it returns.

pub mod capture;
pub mod config;
pub mod hook;
pub mod payload;
pub mod render;

pub use capture::{capture, Backtrace, Frame, Symbol};
pub use config::{BacktraceMode, Config};
pub use hook::{init, on_fault, HookState, LogRecord};
pub use payload::{extract_message, Payload};
pub use render::{render_backtrace, render_report, Location};
