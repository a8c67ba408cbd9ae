use log_panics::{capture, render_backtrace, BacktraceMode};

#[test]
fn capture_off_is_empty() {
    let bt = capture(BacktraceMode::Off);
    assert_eq!(bt.frames.len(), 0);
    assert_eq!(render_backtrace(BacktraceMode::Off, &bt), "");
}

#[test]
fn capture_unresolved_walks_the_stack() {
    let bt = capture(BacktraceMode::Unresolved);
    assert!(bt.frames.len() > 0);
    for f in &bt.frames {
        assert_eq!(f.symbols.len(), 0);
    }
    let block = render_backtrace(BacktraceMode::Unresolved, &bt);
    assert!(block.starts_with("\nstack backtrace:"));
    assert!(block.contains(": 0x"));
    assert!(!block.contains(" at "));
}

#[test]
fn capture_resolved_walks_the_stack() {
    let bt = capture(BacktraceMode::Resolved);
    assert!(bt.frames.len() > 0);
    let block = render_backtrace(BacktraceMode::Resolved, &bt);
    assert!(block.starts_with("\nstack backtrace:"));
    assert!(block.contains("- "));
}
