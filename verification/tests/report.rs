use log_panics::{
    extract_message, on_fault, render_backtrace, render_report, Backtrace, BacktraceMode, Config,
    Frame, Location, Payload, Symbol,
};

fn empty_stack() -> Backtrace {
    Backtrace { frames: Vec::new() }
}

#[test]
fn message_from_static_str() {
    assert_eq!(extract_message(&Payload::StaticStr("boom")), "boom");
}

#[test]
fn message_from_owned_string() {
    let p = Payload::OwnedString(String::from("went wrong"));
    assert_eq!(extract_message(&p), "went wrong");
}

#[test]
fn message_fallback_for_unknown_payload() {
    assert_eq!(extract_message(&Payload::Unknown), "Box<Any>");
}

#[test]
fn report_with_location() {
    let loc = Some(Location { file: String::from("src/app"), line: 42 });
    let r = render_report(
        BacktraceMode::Off,
        Some("main"),
        &Payload::StaticStr("boom"),
        &loc,
        &empty_stack(),
    );
    assert_eq!(r, "thread 'main' panicked at 'boom': src/app:42");
}

#[test]
fn report_without_location_has_no_separator() {
    let r = render_report(
        BacktraceMode::Off,
        Some("main"),
        &Payload::StaticStr("boom"),
        &None,
        &empty_stack(),
    );
    assert_eq!(r, "thread 'main' panicked at 'boom'");
}

#[test]
fn unnamed_thread_uses_placeholder() {
    let r = render_report(
        BacktraceMode::Off,
        None,
        &Payload::StaticStr("boom"),
        &None,
        &empty_stack(),
    );
    assert_eq!(r, "thread '<unnamed>' panicked at 'boom'");
}

#[test]
fn scenario_unnamed_thread_with_location() {
    let config = Config::new().backtrace_mode(BacktraceMode::Off);
    let loc = Some(Location { file: String::from("src/app"), line: 42 });
    let rec = on_fault(&config, None, &Payload::StaticStr("boom"), &loc);
    assert_eq!(rec.target, "panic");
    assert_eq!(rec.message, "thread '<unnamed>' panicked at 'boom': src/app:42");
}

#[test]
fn scenario_non_string_payload() {
    let config = Config::new().backtrace_mode(BacktraceMode::Off);
    let rec = on_fault(&config, None, &Payload::Unknown, &None);
    assert_eq!(rec.message, "thread '<unnamed>' panicked at 'Box<Any>'");
}

#[test]
fn off_mode_never_renders_header() {
    let config = Config::new().backtrace_mode(BacktraceMode::Off);
    let rec = on_fault(&config, Some("worker"), &Payload::StaticStr("boom"), &None);
    assert!(!rec.message.contains("stack backtrace:"));
}

#[test]
fn unresolved_entries_show_address_only() {
    let bt = Backtrace {
        frames: vec![
            Frame {
                ip: 0x1234,
                symbols: vec![Symbol {
                    name: Some(String::from("secret")),
                    location: Some((String::from("hidden.rs"), 9)),
                }],
            },
            Frame { ip: 0xff, symbols: Vec::new() },
        ],
    };
    let block = render_backtrace(BacktraceMode::Unresolved, &bt);
    assert_eq!(
        block,
        "\nstack backtrace:\n  0: 0x0000000000001234\n  1: 0x00000000000000ff"
    );
    assert!(!block.contains("secret"));
    assert!(!block.contains(" at "));
}

#[test]
fn resolved_entries_show_symbols_and_unknown_marker() {
    let bt = Backtrace {
        frames: vec![
            Frame {
                ip: 0x10,
                symbols: vec![Symbol {
                    name: Some(String::from("alpha::beta")),
                    location: Some((String::from("src/lib.rs"), 7)),
                }],
            },
            Frame { ip: 0x20, symbols: Vec::new() },
        ],
    };
    let block = render_backtrace(BacktraceMode::Resolved, &bt);
    assert_eq!(
        block,
        "\nstack backtrace:\n  0: 0x0000000000000010\n      - alpha::beta\n        at src/lib.rs:7\n  1: 0x0000000000000020\n      - <unknown>"
    );
}

#[test]
fn resolved_symbol_without_name_renders_unknown() {
    let bt = Backtrace {
        frames: vec![Frame {
            ip: 0x30,
            symbols: vec![Symbol { name: None, location: Some((String::from("a.rs"), 3)) }],
        }],
    };
    let block = render_backtrace(BacktraceMode::Resolved, &bt);
    assert_eq!(
        block,
        "\nstack backtrace:\n  0: 0x0000000000000030\n      - <unknown>\n        at a.rs:3"
    );
}

#[test]
fn inlined_symbols_render_under_one_index() {
    let bt = Backtrace {
        frames: vec![Frame {
            ip: 0x40,
            symbols: vec![
                Symbol { name: Some(String::from("inner")), location: None },
                Symbol { name: Some(String::from("outer")), location: None },
            ],
        }],
    };
    let block = render_backtrace(BacktraceMode::Resolved, &bt);
    assert_eq!(
        block,
        "\nstack backtrace:\n  0: 0x0000000000000040\n      - inner\n      - outer"
    );
}

#[test]
fn hex_field_is_sixteen_digits() {
    let bt = Backtrace {
        frames: vec![Frame { ip: usize::MAX, symbols: Vec::new() }],
    };
    let block = render_backtrace(BacktraceMode::Unresolved, &bt);
    assert_eq!(block, "\nstack backtrace:\n  0: 0xffffffffffffffff");
}

#[test]
fn largest_line_number_renders_in_full() {
    let loc = Some(Location { file: String::from("f"), line: u32::MAX });
    let r = render_report(
        BacktraceMode::Off,
        Some("t"),
        &Payload::StaticStr("m"),
        &loc,
        &empty_stack(),
    );
    assert_eq!(r, "thread 't' panicked at 'm': f:4294967295");
}

#[test]
fn empty_message_and_empty_thread_name() {
    let r = render_report(
        BacktraceMode::Off,
        Some(""),
        &Payload::StaticStr(""),
        &None,
        &empty_stack(),
    );
    assert_eq!(r, "thread '' panicked at ''");
}
