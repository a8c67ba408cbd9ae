//! The backtrace capturer: walks the call stack on demand and hands it back
//! as plain data.
//!
//! The walk itself, and symbol resolution, are the backtrace crate's work;
//! what frames come back depends on the machine and the moment, so the
//! trusted wrappers promise nothing about their contents. Everything the
//! rest of the crate relies on — an empty stack under `Off`, symbol-free
//! frames under `Unresolved` — is established here in verified code.

use vstd::prelude::*;

use crate::config::BacktraceMode;

verus! {

/// Resolved debug information for one frame; a frame may carry several of
/// these when functions were inlined into it.
pub struct Symbol {
    /// The demangled function name, when resolution found one.
    pub name: Option<String>,
    /// Source file and line, attached only when both were retrievable
    /// together.
    pub location: Option<(String, u32)>,
}

/// One stack-unwind entry: the instruction pointer and whatever symbols
/// resolved for it (empty when unresolved or unresolvable).
pub struct Frame {
    /// The frame's instruction pointer, as a plain address.
    pub ip: usize,
    /// The symbols resolved for this frame, innermost first.
    pub symbols: Vec<Symbol>,
}

/// A captured call stack, innermost frame first, mirroring the runtime's
/// default crash-report convention.
pub struct Backtrace {
    /// The captured frames, capture point outward.
    pub frames: Vec<Frame>,
}

/// What `capture` guarantees of a stack captured under a given mode. The
/// frames themselves depend on the machine and the moment of capture, so
/// nothing more can be promised of them.
pub open spec fn capture_ok(mode: BacktraceMode, bt: Backtrace) -> bool {
    &&& mode == BacktraceMode::Off ==> bt.frames@.len() == 0
    &&& mode == BacktraceMode::Unresolved ==> forall|i: int|
        0 <= i < bt.frames@.len() ==> (#[trigger] bt.frames@[i]).symbols@.len() == 0
}

#[verifier::external_type_specification]
#[verifier::external_body]
pub struct ExBacktraceFrame(backtrace::BacktraceFrame);

#[verifier::external_type_specification]
#[verifier::external_body]
pub struct ExBacktraceSymbol(backtrace::BacktraceSymbol);

/// Relies on backtrace::Backtrace::new, and on the crate's
/// Into<Vec<BacktraceFrame>> impl to hand the frames out: walks the stack
/// from the call site outward, resolves each frame against available debug
/// info, and returns the frames in captured order, innermost first.
#[verifier::external_body]
fn trace_resolved() -> Vec<backtrace::BacktraceFrame> {
    backtrace::Backtrace::new().into()
}

/// Relies on backtrace::Backtrace::new_unresolved, and on the crate's
/// Into<Vec<BacktraceFrame>> impl to hand the frames out: walks the stack
/// without touching debug-symbol stores; the frames come back unresolved,
/// in captured order, innermost first.
#[verifier::external_body]
fn trace_unresolved() -> Vec<backtrace::BacktraceFrame> {
    backtrace::Backtrace::new_unresolved().into()
}

/// Relies on backtrace::BacktraceFrame::ip: the frame's instruction
/// pointer, read as a plain address.
#[verifier::external_body]
fn frame_ip(f: &backtrace::BacktraceFrame) -> usize {
    f.ip() as usize
}

/// Relies on backtrace::BacktraceFrame::symbols: the symbols resolution
/// found for the frame; empty when the frame is unresolved or nothing in
/// the symbol tables matched.
#[verifier::external_body]
fn frame_symbols(f: &backtrace::BacktraceFrame) -> Vec<backtrace::BacktraceSymbol> {
    f.symbols().to_vec()
}

/// Relies on backtrace::BacktraceSymbol::name: the demangled symbol name,
/// when one resolved.
#[verifier::external_body]
fn symbol_name(s: &backtrace::BacktraceSymbol) -> Option<String> {
    match s.name() {
        Some(n) => Some(format!("{}", n)),
        None => None,
    }
}

/// Relies on backtrace::BacktraceSymbol::filename: the source file the
/// symbol resolved to, when debug info carried one.
#[verifier::external_body]
fn symbol_filename(s: &backtrace::BacktraceSymbol) -> Option<String> {
    match s.filename() {
        Some(p) => Some(format!("{}", p.display())),
        None => None,
    }
}

/// Relies on backtrace::BacktraceSymbol::lineno: the source line the symbol
/// resolved to, when debug info carried one.
#[verifier::external_body]
fn symbol_lineno(s: &backtrace::BacktraceSymbol) -> Option<u32> {
    s.lineno()
}

/// Reads one resolved symbol into plain data, attaching file and line only
/// when both are available together.
fn convert_symbol(raw: &backtrace::BacktraceSymbol) -> Symbol {
    let name = symbol_name(raw);
    let file = symbol_filename(raw);
    let line = symbol_lineno(raw);
    let location = match file {
        Option::Some(f) => match line {
            Option::Some(l) => Option::Some((f, l)),
            Option::None => Option::None,
        },
        Option::None => Option::None,
    };
    Symbol { name, location }
}

/// Reads the raw frames into plain data, one `Frame` per raw frame, in
/// order; when `resolve` is false every frame's symbol list is left empty
/// without touching resolution at all.
fn convert_frames(raw: &Vec<backtrace::BacktraceFrame>, resolve: bool) -> (frames: Vec<Frame>)
    ensures
        frames@.len() == raw@.len(),
        !resolve ==> forall|k: int|
            0 <= k < frames@.len() ==> (#[trigger] frames@[k]).symbols@.len() == 0,
{
    let mut frames: Vec<Frame> = Vec::new();
    let mut i: usize = 0;
    while i < raw.len()
        invariant
            i <= raw@.len(),
            frames@.len() == i,
            !resolve ==> forall|k: int|
                0 <= k < frames@.len() ==> (#[trigger] frames@[k]).symbols@.len() == 0,
        decreases raw@.len() - i,
    {
        let f = &raw[i];
        let mut symbols: Vec<Symbol> = Vec::new();
        if resolve {
            let raw_syms = frame_symbols(f);
            let mut j: usize = 0;
            while j < raw_syms.len()
                decreases raw_syms@.len() - j,
            {
                symbols.push(convert_symbol(&raw_syms[j]));
                j += 1;
            }
        }
        frames.push(Frame { ip: frame_ip(f), symbols });
        i += 1;
    }
    frames
}

/// Captures the current call stack under the given mode.
///
/// `Off` builds an empty stack without calling into the unwinding machinery
/// at all; `Unresolved` walks the stack but leaves every frame's symbol
/// list empty, which is cheap and always succeeds; `Resolved` additionally
/// resolves each frame, best-effort, against available debug info.
pub fn capture(mode: BacktraceMode) -> (bt: Backtrace)
    ensures
        capture_ok(mode, bt),
{
    match mode {
        BacktraceMode::Off => Backtrace { frames: Vec::new() },
        BacktraceMode::Unresolved => {
            let raw = trace_unresolved();
            Backtrace { frames: convert_frames(&raw, false) }
        }
        BacktraceMode::Resolved => {
            let raw = trace_resolved();
            Backtrace { frames: convert_frames(&raw, true) }
        }
    }
}

} // verus!
