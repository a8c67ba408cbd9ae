use log_panics::{init, BacktraceMode, Config, HookState};

#[test]
fn starts_uninstalled() {
    let s = HookState::unset();
    assert_eq!(s.installed, None);
}

#[test]
fn install_records_config() {
    let mut s = HookState::unset();
    Config::new().backtrace_mode(BacktraceMode::Unresolved).install_panic_hook(&mut s);
    assert_eq!(s.installed, Some(Config { mode: BacktraceMode::Unresolved }));
}

#[test]
fn init_installs_default() {
    let mut s = HookState::unset();
    init(&mut s);
    assert_eq!(s.installed, Some(Config { mode: BacktraceMode::Resolved }));
}

#[test]
fn reinstall_leaves_only_second_config() {
    let mut s = HookState::unset();
    Config::new().backtrace_mode(BacktraceMode::Resolved).install_panic_hook(&mut s);
    Config::new().backtrace_mode(BacktraceMode::Off).install_panic_hook(&mut s);
    assert_eq!(s.installed, Some(Config { mode: BacktraceMode::Off }));
}
