use mount_harness::teardown::{
    teardown_complaint, Teardown, TeardownAction, TeardownStage, Unmount,
};

#[test]
fn teardown_begins_with_the_kill() {
    for mode in [Unmount::Manual, Unmount::Auto] {
        let (t, first) = Teardown::begin(mode);
        assert_eq!(first, TeardownAction::Kill);
        assert_eq!(t.stage, TeardownStage::Killing);
        assert_eq!(t.mode, mode);
        assert!(!t.killed);
        assert!(!t.released);
    }
}

#[test]
fn manual_teardown_kills_then_unmounts() {
    let (mut t, _) = Teardown::begin(Unmount::Manual);
    assert_eq!(t.advance(true), TeardownAction::Unmount);
    assert_eq!(t.stage, TeardownStage::Unmounting);
    assert_eq!(t.advance(true), TeardownAction::Report { killed: true, released: true });
    assert_eq!(t.stage, TeardownStage::Done);
}

#[test]
fn unmount_is_requested_even_when_the_kill_fails() {
    let (mut t, _) = Teardown::begin(Unmount::Manual);
    assert_eq!(t.advance(false), TeardownAction::Unmount);
    assert_eq!(t.advance(true), TeardownAction::Report { killed: false, released: true });
}

#[test]
fn failed_unmount_is_reported_after_the_kill() {
    let (mut t, _) = Teardown::begin(Unmount::Manual);
    assert_eq!(t.advance(true), TeardownAction::Unmount);
    assert!(t.killed);
    assert_eq!(t.advance(false), TeardownAction::Report { killed: true, released: false });
}

#[test]
fn auto_teardown_only_kills() {
    let (mut t, _) = Teardown::begin(Unmount::Auto);
    assert_eq!(t.advance(true), TeardownAction::Report { killed: true, released: true });
    let (mut t, _) = Teardown::begin(Unmount::Auto);
    assert_eq!(t.advance(false), TeardownAction::Report { killed: false, released: false });
    assert_eq!(t.stage, TeardownStage::Done);
}

#[test]
fn finished_teardown_repeats_its_report() {
    let (mut t, _) = Teardown::begin(Unmount::Manual);
    t.advance(true);
    let report = t.advance(false);
    let before = t;
    assert_eq!(t.advance(true), report);
    assert_eq!(t.advance(false), report);
    assert_eq!(t, before);
}

#[test]
fn complaint_names_request_label_and_context() {
    assert_eq!(
        teardown_complaint(TeardownAction::Kill, "hello", "with macFUSE"),
        "Failed to kill hello with macFUSE"
    );
    assert_eq!(
        teardown_complaint(TeardownAction::Unmount, "hello", "with macFUSE"),
        "Failed to unmount hello with macFUSE"
    );
    assert_eq!(
        teardown_complaint(TeardownAction::Report { killed: true, released: false }, "x", "y"),
        "Failed to tear down x y"
    );
}
