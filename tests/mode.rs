use script::mode::{
    make_raw, ModeGuard, TermMode, BRKINT, CS8, ECHO, ICANON, ICRNL, IEXTEN, ISIG, IXON, NCCS,
    OPOST, PARENB, VMIN, VTIME,
};

fn cooked() -> TermMode {
    let mut chars = [0u8; NCCS];
    chars[VMIN] = 0;
    chars[VTIME] = 7;
    chars[0] = 3;
    TermMode {
        input: BRKINT | ICRNL | IXON | 0x2000,
        output: OPOST | 0x4,
        control: PARENB | 0x10 | 0x80,
        local: ECHO | ICANON | ISIG | IEXTEN | 0x10,
        chars,
    }
}

#[test]
fn raw_mode_clears_translation_echo_and_signals() {
    let m = cooked();
    let r = make_raw(&m);
    assert_eq!(r.input, 0x2000);
    assert_eq!(r.output, 0x4);
    assert_eq!(r.local, 0x10);
    assert_eq!(r.control, 0x80 | CS8);
    assert_eq!(r.chars[VMIN], 1);
    assert_eq!(r.chars[VTIME], 0);
    assert_eq!(r.chars[0], 3);
}

#[test]
fn guard_returns_settings_from_before_raw_mode() {
    let m = cooked();
    let mut guard = ModeGuard::capture(m);
    assert!(guard.restore().is_none());
    let raw = guard.enter_raw(m);
    assert_eq!(raw.local & ECHO, 0);
    let back = guard.restore().expect("settings owed back");
    assert_eq!(back.local, m.local);
    assert_eq!(back.input, m.input);
    assert_eq!(back.chars, m.chars);
}

#[test]
fn restoring_twice_is_restoring_once() {
    let m = cooked();
    let mut guard = ModeGuard::capture(m);
    guard.enter_raw(m);
    let mut terminal = make_raw(&m);
    if let Some(s) = guard.restore() {
        terminal = s;
    }
    let once = terminal;
    if let Some(s) = guard.restore() {
        terminal = s;
    }
    assert_eq!(terminal.local, once.local);
    assert_eq!(terminal.input, once.input);
    assert_eq!(terminal.chars, once.chars);
    assert_eq!(guard.saved_mode().local, m.local);
}
