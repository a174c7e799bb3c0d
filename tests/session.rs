use script::child::{attaching_plan, opening_plan, ChildStep};
use script::session::{Session, Stage};

#[test]
fn setup_runs_in_order_and_ends_with_restore() {
    let mut s = Session::new();
    assert_eq!(s.stage(), Stage::QueryTerminal);
    let expected = [
        Stage::OpenPty,
        Stage::Fork,
        Stage::OpenTranscript,
        Stage::EnterRaw,
        Stage::Relay,
        Stage::Restore,
        Stage::Finished,
    ];
    for stage in expected {
        assert!(!s.is_over());
        assert_eq!(s.advance(true), stage);
    }
    assert!(s.is_over());
}

#[test]
fn unwritable_transcript_aborts_before_raw_mode() {
    let mut s = Session::new();
    s.advance(true);
    s.advance(true);
    s.advance(true);
    assert_eq!(s.stage(), Stage::OpenTranscript);
    assert_eq!(s.advance(false), Stage::Aborted);
    assert!(s.is_over());
    assert_eq!(s.advance(true), Stage::Aborted);
}

#[test]
fn failed_terminal_query_aborts() {
    let mut s = Session::new();
    assert_eq!(s.advance(false), Stage::Aborted);
}

#[test]
fn relay_end_leads_to_restore() {
    let mut s = Session::new();
    for _ in 0..4 {
        s.advance(true);
    }
    assert_eq!(s.stage(), Stage::EnterRaw);
    assert_eq!(s.advance(true), Stage::Relay);
    assert_eq!(s.advance(false), Stage::Restore);
    assert_eq!(s.advance(false), Stage::Finished);
}

#[test]
fn failed_raw_switch_still_restores() {
    let mut s = Session::new();
    for _ in 0..4 {
        s.advance(true);
    }
    assert_eq!(s.advance(false), Stage::Restore);
    assert_eq!(s.advance(false), Stage::Finished);
}

#[test]
fn child_opens_slave_after_leaving_session() {
    assert_eq!(
        opening_plan(),
        vec![ChildStep::NewSession, ChildStep::CloseMaster, ChildStep::OpenSlave]
    );
}

#[test]
fn child_closes_extra_slave_descriptor() {
    assert_eq!(
        attaching_plan(5, false),
        vec![
            ChildStep::ApplyMode,
            ChildStep::ApplyWindowSize,
            ChildStep::DupOnto(0),
            ChildStep::DupOnto(1),
            ChildStep::DupOnto(2),
            ChildStep::CloseSlave,
        ]
    );
}

#[test]
fn child_keeps_slave_on_a_standard_descriptor() {
    assert_eq!(
        attaching_plan(0, true),
        vec![
            ChildStep::AcquireTerminal,
            ChildStep::ApplyMode,
            ChildStep::ApplyWindowSize,
            ChildStep::DupOnto(0),
            ChildStep::DupOnto(1),
            ChildStep::DupOnto(2),
        ]
    );
}
