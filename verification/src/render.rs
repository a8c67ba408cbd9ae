//! The formatter: turns the fault context into the one report line the
//! runtime's own crash output would have shown, optionally followed by the
//! captured stack.
//!
//! The whole line is specified character by character: `report_spec` is the
//! reference rendering, and every executable function here is proved to
//! produce exactly it. The line is styled
//! `thread '<name>' panicked at '<message>': <file>:<line>` with the
//! location segment omitted, separator included, when no location is known,
//! followed — when frames were captured — by a `stack backtrace:` header
//! and one indexed entry per frame.

use vstd::prelude::*;
use vstd::string::StringExecFns;

use crate::capture::{Backtrace, Frame, Symbol};
use crate::config::BacktraceMode;
use crate::payload::{extract_message, message_spec, Payload};

verus! {

/// The source position a fault was raised at, when the runtime supplied
/// one.
pub struct Location {
    /// The source file the fault was raised in.
    pub file: String,
    /// The line within that file.
    pub line: u32,
}

/// The name the report shows for the faulting thread: its assigned name,
/// or the fixed placeholder `<unnamed>` when it has none.
pub open spec fn thread_label_spec(name: Option<&str>) -> Seq<char> {
    match name {
        Option::Some(n) => n@,
        Option::None => "<unnamed>"@,
    }
}

/// The character for one decimal digit.
pub open spec fn digit_char(d: int) -> char {
    if d == 0 {
        '0'
    } else if d == 1 {
        '1'
    } else if d == 2 {
        '2'
    } else if d == 3 {
        '3'
    } else if d == 4 {
        '4'
    } else if d == 5 {
        '5'
    } else if d == 6 {
        '6'
    } else if d == 7 {
        '7'
    } else if d == 8 {
        '8'
    } else {
        '9'
    }
}

/// The usual decimal rendering of a number: no sign, no leading zeros
/// (except for zero itself).
pub open spec fn dec_spec(n: nat) -> Seq<char>
    decreases n,
{
    if n < 10 {
        seq![digit_char(n as int)]
    } else {
        dec_spec(n / 10) + seq![digit_char((n % 10) as int)]
    }
}

/// The character for one hexadecimal digit, lower case.
pub open spec fn hex_digit_char(d: int) -> char {
    if d < 10 {
        digit_char(d)
    } else if d == 10 {
        'a'
    } else if d == 11 {
        'b'
    } else if d == 12 {
        'c'
    } else if d == 13 {
        'd'
    } else if d == 14 {
        'e'
    } else {
        'f'
    }
}

/// The i-th hexadecimal digit of an address, most significant first.
pub open spec fn nibble_spec(ip: u64, i: int) -> u64 {
    (ip >> (((15 - i) * 4) as u64)) & 0xf
}

/// An address as a fixed-width field: all sixteen hexadecimal digits, most
/// significant first, zero-padded.
pub open spec fn hex16_spec(ip: u64) -> Seq<char> {
    Seq::new(16, |i: int| hex_digit_char(nibble_spec(ip, i) as int))
}

/// The location segment of the report: `: file:line` when a location is
/// present, nothing — separator included — when it is absent.
pub open spec fn location_suffix_spec(loc: Option<Location>) -> Seq<char> {
    match loc {
        Option::Some(l) => ": "@ + l.file@ + ":"@ + dec_spec(l.line as nat),
        Option::None => Seq::<char>::empty(),
    }
}

/// The headline of the report: thread, message and location, without any
/// backtrace block.
pub open spec fn headline_spec(
    thread_name: Option<&str>,
    payload: Payload,
    loc: Option<Location>,
) -> Seq<char> {
    "thread '"@ + thread_label_spec(thread_name) + "' panicked at '"@ + message_spec(&payload)
        + "'"@ + location_suffix_spec(loc)
}

/// One symbol's sub-line under a frame entry: its name, or the explicit
/// unknown marker, then an indented `at file:line` when the pair resolved.
pub open spec fn symbol_line_spec(s: Symbol) -> Seq<char> {
    "\n      - "@ + (match s.name {
        Option::Some(n) => n@,
        Option::None => "<unknown>"@,
    }) + (match s.location {
        Option::Some(fl) => "\n        at "@ + fl.0@ + ":"@ + dec_spec(fl.1 as nat),
        Option::None => Seq::<char>::empty(),
    })
}

/// The sub-lines of the first n symbols of a frame, in order.
pub open spec fn symbol_lines_spec(syms: Seq<Symbol>, n: int) -> Seq<char>
    decreases n,
{
    if n <= 0 {
        Seq::<char>::empty()
    } else {
        symbol_lines_spec(syms, n - 1) + symbol_line_spec(syms[n - 1])
    }
}

/// What a frame entry shows below its address: nothing unless symbols were
/// resolved; under `Resolved`, one sub-line per symbol, or the explicit
/// unknown marker when resolution found none, so that no frame is skipped.
pub open spec fn symbol_block_spec(mode: BacktraceMode, syms: Seq<Symbol>) -> Seq<char> {
    if mode != BacktraceMode::Resolved {
        Seq::<char>::empty()
    } else if syms.len() == 0 {
        "\n      - <unknown>"@
    } else {
        symbol_lines_spec(syms, syms.len() as int)
    }
}

/// One frame's entry: its index, its address in the fixed-width field, and
/// its symbol sub-lines as the mode admits them.
pub open spec fn frame_entry_spec(mode: BacktraceMode, i: nat, f: Frame) -> Seq<char> {
    "\n  "@ + dec_spec(i) + ": 0x"@ + hex16_spec(f.ip as u64) + symbol_block_spec(
        mode,
        f.symbols@,
    )
}

/// The entries of the first n frames, in order, indices counting up from
/// zero.
pub open spec fn frame_entries_spec(mode: BacktraceMode, frames: Seq<Frame>, n: int) -> Seq<char>
    decreases n,
{
    if n <= 0 {
        Seq::<char>::empty()
    } else {
        frame_entries_spec(mode, frames, n - 1) + frame_entry_spec(
            mode,
            (n - 1) as nat,
            frames[n - 1],
        )
    }
}

/// The backtrace block: nothing under `Off` or when no frames were
/// captured; otherwise the header line and one entry per frame.
pub open spec fn backtrace_block_spec(mode: BacktraceMode, frames: Seq<Frame>) -> Seq<char> {
    if mode == BacktraceMode::Off || frames.len() == 0 {
        Seq::<char>::empty()
    } else {
        "\nstack backtrace:"@ + frame_entries_spec(mode, frames, frames.len() as int)
    }
}

/// The whole report line: the headline followed by the backtrace block.
pub open spec fn report_spec(
    mode: BacktraceMode,
    thread_name: Option<&str>,
    payload: Payload,
    loc: Option<Location>,
    frames: Seq<Frame>,
) -> Seq<char> {
    headline_spec(thread_name, payload, loc) + backtrace_block_spec(mode, frames)
}

/// One decimal digit as a string slice.
fn digit_str(d: u64) -> (r: &'static str)
    requires
        d < 10,
    ensures
        r@ == seq![digit_char(d as int)],
{
    let r: &'static str = if d == 0 {
        "0"
    } else if d == 1 {
        "1"
    } else if d == 2 {
        "2"
    } else if d == 3 {
        "3"
    } else if d == 4 {
        "4"
    } else if d == 5 {
        "5"
    } else if d == 6 {
        "6"
    } else if d == 7 {
        "7"
    } else if d == 8 {
        "8"
    } else {
        "9"
    };
    proof {
        reveal_strlit("0");
        reveal_strlit("1");
        reveal_strlit("2");
        reveal_strlit("3");
        reveal_strlit("4");
        reveal_strlit("5");
        reveal_strlit("6");
        reveal_strlit("7");
        reveal_strlit("8");
        reveal_strlit("9");
        assert(r@ =~= seq![digit_char(d as int)]);
    }
    r
}

/// One hexadecimal digit as a string slice, lower case.
fn hex_digit_str(d: u64) -> (r: &'static str)
    requires
        d < 16,
    ensures
        r@ == seq![hex_digit_char(d as int)],
{
    if d < 10 {
        digit_str(d)
    } else {
        let r: &'static str = if d == 10 {
            "a"
        } else if d == 11 {
            "b"
        } else if d == 12 {
            "c"
        } else if d == 13 {
            "d"
        } else if d == 14 {
            "e"
        } else {
            "f"
        };
        proof {
            reveal_strlit("a");
            reveal_strlit("b");
            reveal_strlit("c");
            reveal_strlit("d");
            reveal_strlit("e");
            reveal_strlit("f");
            assert(r@ =~= seq![hex_digit_char(d as int)]);
        }
        r
    }
}

/// Appends the decimal rendering of n.
fn append_dec(out: &mut String, n: u64)
    ensures
        final(out)@ == old(out)@ + dec_spec(n as nat),
    decreases n,
{
    if n >= 10 {
        proof {
            assert(n / 10 < n && n % 10 < 10) by (nonlinear_arith)
                requires
                    n >= 10,
            ;
        }
        append_dec(out, n / 10);
    } else {
        proof {
            assert(n % 10 == n) by (nonlinear_arith)
                requires
                    n < 10,
            ;
        }
    }
    out.append(digit_str(n % 10));
}

/// Appends the sixteen-digit hexadecimal field for an address.
fn append_hex16(out: &mut String, ip: u64)
    ensures
        final(out)@ == old(out)@ + hex16_spec(ip),
{
    let mut i: usize = 0;
    while i < 16
        invariant
            i <= 16,
            out@ == old(out)@ + hex16_spec(ip).subrange(0, i as int),
        decreases 16 - i,
    {
        let shift: u64 = ((15 - i) as u64) * 4;
        let nib: u64 = (ip >> shift) & 0xf;
        proof {
            assert((ip >> shift) & 0xf < 16) by (bit_vector);
            assert(shift == ((15 - (i as int)) * 4) as u64);
            assert(nib == nibble_spec(ip, i as int));
            assert(hex16_spec(ip)[i as int] == hex_digit_char(nib as int));
        }
        out.append(hex_digit_str(nib));
        proof {
            assert(hex16_spec(ip).subrange(0, i as int + 1) =~= hex16_spec(ip).subrange(
                0,
                i as int,
            ) + seq![hex_digit_char(nib as int)]);
        }
        i = i + 1;
    }
    proof {
        assert(hex16_spec(ip).subrange(0, 16) =~= hex16_spec(ip));
    }
}

/// Appends one symbol's sub-line.
fn append_symbol(out: &mut String, s: &Symbol)
    ensures
        final(out)@ == old(out)@ + symbol_line_spec(*s),
{
    out.append("\n      - ");
    match &s.name {
        Option::Some(n) => out.append(n.as_str()),
        Option::None => out.append("<unknown>"),
    }
    match &s.location {
        Option::Some(fl) => {
            out.append("\n        at ");
            out.append(fl.0.as_str());
            out.append(":");
            append_dec(out, fl.1 as u64);
        },
        Option::None => {},
    }
}

/// Appends one frame's entry under the given index.
fn append_frame(out: &mut String, mode: BacktraceMode, idx: u64, f: &Frame)
    ensures
        final(out)@ == old(out)@ + frame_entry_spec(mode, idx as nat, *f),
{
    out.append("\n  ");
    append_dec(out, idx);
    out.append(": 0x");
    append_hex16(out, f.ip as u64);
    if mode == BacktraceMode::Resolved {
        if f.symbols.len() == 0 {
            out.append("\n      - <unknown>");
        } else {
            let ghost mid = out@;
            let mut j: usize = 0;
            while j < f.symbols.len()
                invariant
                    j <= f.symbols@.len(),
                    out@ == mid + symbol_lines_spec(f.symbols@, j as int),
                decreases f.symbols@.len() - j,
            {
                append_symbol(out, &f.symbols[j]);
                j = j + 1;
            }
        }
    }
}

/// Renders the backtrace block for a captured stack under the given mode.
pub fn render_backtrace(mode: BacktraceMode, bt: &Backtrace) -> (r: String)
    ensures
        r@ == backtrace_block_spec(mode, bt.frames@),
{
    let mut out = String::new();
    if mode == BacktraceMode::Off || bt.frames.len() == 0 {
        return out;
    }
    out.append("\nstack backtrace:");
    let mut i: usize = 0;
    while i < bt.frames.len()
        invariant
            i <= bt.frames@.len(),
            mode != BacktraceMode::Off,
            out@ == "\nstack backtrace:"@ + frame_entries_spec(mode, bt.frames@, i as int),
        decreases bt.frames@.len() - i,
    {
        append_frame(&mut out, mode, i as u64, &bt.frames[i]);
        i = i + 1;
    }
    out
}

/// Builds the complete report line for one fault.
///
/// The result is exactly `report_spec` of the inputs: the headline with the
/// thread's name or the placeholder, the extracted message, the location
/// segment when one is present, and the backtrace block as the mode and the
/// captured stack admit it.
pub fn render_report(
    mode: BacktraceMode,
    thread_name: Option<&str>,
    payload: &Payload,
    location: &Option<Location>,
    bt: &Backtrace,
) -> (r: String)
    ensures
        r@ == report_spec(mode, thread_name, *payload, *location, bt.frames@),
{
    let mut out = String::new();
    out.append("thread '");
    match thread_name {
        Option::Some(n) => out.append(n),
        Option::None => out.append("<unnamed>"),
    }
    out.append("' panicked at '");
    out.append(extract_message(payload));
    out.append("'");
    match location {
        Option::Some(l) => {
            out.append(": ");
            out.append(l.file.as_str());
            out.append(":");
            append_dec(&mut out, l.line as u64);
        },
        Option::None => {},
    }
    let block = render_backtrace(mode, bt);
    out.append(block.as_str());
    out
}

/// A present location renders as `file:line` immediately after the message
/// segment, separated from it by `: `.
pub proof fn lemma_location_present(
    mode: BacktraceMode,
    thread_name: Option<&str>,
    payload: Payload,
    l: Location,
    frames: Seq<Frame>,
)
    ensures
        report_spec(mode, thread_name, payload, Option::Some(l), frames) == "thread '"@
            + thread_label_spec(thread_name) + "' panicked at '"@ + message_spec(&payload) + "'"@
            + ": "@ + l.file@ + ":"@ + dec_spec(l.line as nat) + backtrace_block_spec(
            mode,
            frames,
        ),
{
    assert(report_spec(mode, thread_name, payload, Option::Some(l), frames) =~= "thread '"@
        + thread_label_spec(thread_name) + "' panicked at '"@ + message_spec(&payload) + "'"@
        + ": "@ + l.file@ + ":"@ + dec_spec(l.line as nat) + backtrace_block_spec(mode, frames));
}

/// An absent location leaves no trace: the message segment is followed
/// directly by the backtrace block, with no stray separator between them.
pub proof fn lemma_location_absent(
    mode: BacktraceMode,
    thread_name: Option<&str>,
    payload: Payload,
    frames: Seq<Frame>,
)
    ensures
        report_spec(mode, thread_name, payload, Option::None, frames) == "thread '"@
            + thread_label_spec(thread_name) + "' panicked at '"@ + message_spec(&payload) + "'"@
            + backtrace_block_spec(mode, frames),
{
    assert(report_spec(mode, thread_name, payload, Option::None, frames) =~= "thread '"@
        + thread_label_spec(thread_name) + "' panicked at '"@ + message_spec(&payload) + "'"@
        + backtrace_block_spec(mode, frames));
}

/// Under `Off` the report is the headline alone: no header, no entries,
/// whatever stack is supplied and however deep it is.
pub proof fn lemma_off_omits_backtrace(
    thread_name: Option<&str>,
    payload: Payload,
    loc: Option<Location>,
    frames: Seq<Frame>,
)
    ensures
        report_spec(BacktraceMode::Off, thread_name, payload, loc, frames) == headline_spec(
            thread_name,
            payload,
            loc,
        ),
{
    assert(report_spec(BacktraceMode::Off, thread_name, payload, loc, frames) =~= headline_spec(
        thread_name,
        payload,
        loc,
    ));
}

/// Under `Unresolved` a frame's entry is its index and its address field
/// and nothing more: no symbol name, no file/line sub-line, whatever
/// symbols the frame carries.
pub proof fn lemma_unresolved_entry(i: nat, f: Frame)
    ensures
        frame_entry_spec(BacktraceMode::Unresolved, i, f) == "\n  "@ + dec_spec(i) + ": 0x"@
            + hex16_spec(f.ip as u64),
{
    assert(frame_entry_spec(BacktraceMode::Unresolved, i, f) =~= "\n  "@ + dec_spec(i) + ": 0x"@
        + hex16_spec(f.ip as u64));
}

/// Under `Resolved` a frame with no resolvable symbol is not skipped: it
/// renders under its own index with the explicit unknown marker in place
/// of a name.
pub proof fn lemma_resolved_unknown_marker(i: nat, f: Frame)
    requires
        f.symbols@.len() == 0,
    ensures
        frame_entry_spec(BacktraceMode::Resolved, i, f) == "\n  "@ + dec_spec(i) + ": 0x"@
            + hex16_spec(f.ip as u64) + "\n      - <unknown>"@,
{
    assert(frame_entry_spec(BacktraceMode::Resolved, i, f) =~= "\n  "@ + dec_spec(i) + ": 0x"@
        + hex16_spec(f.ip as u64) + "\n      - <unknown>"@);
}

/// A symbol whose name resolved contributes that name verbatim to its
/// sub-line, in place of the unknown marker.
pub proof fn lemma_resolved_symbol_name(s: Symbol, nm: String)
    requires
        s.name == Option::Some(nm),
    ensures
        symbol_line_spec(s) == "\n      - "@ + nm@ + (match s.location {
            Option::Some(fl) => "\n        at "@ + fl.0@ + ":"@ + dec_spec(fl.1 as nat),
            Option::None => Seq::<char>::empty(),
        }),
{
}

/// The backtrace block lists one entry per captured frame, in order: the
/// entries of the first n frames are those of the first n - 1 followed by
/// the entry of frame n - 1 under index n - 1, so indices stay continuous.
pub proof fn lemma_entry_per_frame(mode: BacktraceMode, frames: Seq<Frame>, n: int)
    requires
        0 < n <= frames.len(),
    ensures
        frame_entries_spec(mode, frames, n) == frame_entries_spec(mode, frames, n - 1)
            + frame_entry_spec(mode, (n - 1) as nat, frames[n - 1]),
{
}

/// No frame is dropped: the entries of the first n frames contain, as a
/// contiguous run of characters, the full entry of every frame among them.
pub proof fn lemma_entries_contain_each_entry(mode: BacktraceMode, frames: Seq<Frame>, n: int, j: int)
    requires
        0 <= j < n <= frames.len(),
    ensures
        exists|k: int|
            0 <= k && k + frame_entry_spec(mode, j as nat, frames[j]).len()
                <= frame_entries_spec(mode, frames, n).len() && #[trigger] frame_entries_spec(
                mode,
                frames,
                n,
            ).subrange(k, k + frame_entry_spec(mode, j as nat, frames[j]).len() as int)
                == frame_entry_spec(mode, j as nat, frames[j]),
    decreases n,
{
    let entry = frame_entry_spec(mode, j as nat, frames[j]);
    let whole = frame_entries_spec(mode, frames, n);
    if j == n - 1 {
        let k = frame_entries_spec(mode, frames, n - 1).len() as int;
        assert(whole.subrange(k, k + entry.len() as int) =~= entry);
    } else {
        lemma_entries_contain_each_entry(mode, frames, n - 1, j);
        let prev = frame_entries_spec(mode, frames, n - 1);
        let k = choose|k: int|
            0 <= k && k + entry.len() <= prev.len() && #[trigger] prev.subrange(
                k,
                k + entry.len() as int,
            ) == entry;
        assert(whole.subrange(k, k + entry.len() as int) =~= prev.subrange(
            k,
            k + entry.len() as int,
        ));
    }
}

} // verus!
