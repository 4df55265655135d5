use app_shell::{conclude, Outcome, Plugin, Startup, Step};

#[test]
fn plugins_register_in_order_before_run() {
    let mut s = Startup::new();
    assert_eq!(s.next(), Step::Register(Plugin::FilesystemAccess));
    assert_eq!(s.next(), Step::Register(Plugin::Opener));
    assert_eq!(s.next(), Step::Run);
}

#[test]
fn run_decision_is_stable() {
    let mut s = Startup::new();
    while s.next() != Step::Run {}
    assert_eq!(s.next(), Step::Run);
    assert_eq!(s.next(), Step::Run);
}

#[test]
fn both_capabilities_recorded_when_run_starts() {
    let mut s = Startup::new();
    while s.next() != Step::Run {}
    assert_eq!(
        s.registered(),
        &vec![Plugin::FilesystemAccess, Plugin::Opener]
    );
}

#[test]
fn nothing_registered_at_the_start() {
    let s = Startup::new();
    assert!(s.registered().is_empty());
}

#[test]
fn successful_run_exits_cleanly() {
    assert_eq!(conclude(true), Outcome::Exited);
}

#[test]
fn failed_startup_is_fatal_with_diagnostic() {
    match conclude(false) {
        Outcome::Fatal(msg) => assert_eq!(msg, "error while running tauri application"),
        other => panic!("expected a fatal outcome, got {:?}", other),
    }
}
