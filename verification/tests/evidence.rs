use ibctl::state_machine::evidence::{ConnectedProof, EvidenceKinds, RevocationSource, RevocationTracker, VERIFIER_VERSION};
use ibctl::state_machine::types::State;

const SEC: u128 = 1_000_000_000;

#[test]
fn evidence_tags_enumerate_all_set_flags() {
    let e = EvidenceKinds::ui_snapshot().union(EvidenceKinds::supervisor_alive());
    assert_eq!(e.tags(), vec!["ui_snapshot", "supervisor_alive"]);
}

#[test]
fn forced_proof_is_distinct_in_evidence() {
    let p = ConnectedProof::forced();
    assert!(p.is_forced());
    assert_eq!(p.verifier_version(), VERIFIER_VERSION);
}

#[test]
fn mint_records_provenance() {
    let p = ConnectedProof::mint(42, 1234, EvidenceKinds::ui_snapshot());
    assert_eq!(p.snapshot_version(), 42);
    assert_eq!(p.event_seq(), 1234);
    assert_eq!(p.evidence(), EvidenceKinds::ui_snapshot());
    assert!(!p.is_forced());
}

#[test]
fn immediate_sources_fire_on_first_observe() {
    let mut t = RevocationTracker::new();
    assert_eq!(
        t.observe(RevocationSource::JvmDied),
        Some(RevocationSource::JvmDied),
        "JVM death must fire on first observation (zero debounce)"
    );
}

#[test]
fn debounced_sources_reject_single_observation() {
    let mut t = RevocationTracker::new();
    assert_eq!(
        t.observe(RevocationSource::LoginFormVisible),
        None,
        "login form has 1s debounce: the first observation must not fire"
    );
    assert!(t.is_pending("login_form_visible"));
}

#[test]
fn debounced_sources_fire_after_debounce_elapses() {
    let mut t = RevocationTracker::new();
    assert_eq!(t.observe_at(RevocationSource::DisconnectedLabelStable, 0), None);
    assert_eq!(
        t.observe_at(RevocationSource::DisconnectedLabelStable, 5 * SEC),
        Some(RevocationSource::DisconnectedLabelStable),
        "disconnected label must fire once its 2s debounce has elapsed"
    );
}

#[test]
fn clear_cancels_pending_debounce() {
    let mut t = RevocationTracker::new();
    t.observe(RevocationSource::LoginFormVisible);
    assert!(t.is_pending("login_form_visible"));
    t.clear("login_form_visible");
    assert!(!t.is_pending("login_form_visible"));
}

#[test]
fn clear_all_resets_every_timer() {
    let mut t = RevocationTracker::new();
    t.observe(RevocationSource::LoginFormVisible);
    t.observe(RevocationSource::ErrorDialog("x".into()));
    assert!(t.any_pending());
    t.clear_all();
    assert!(!t.any_pending());
}

#[test]
fn error_dialog_payload_shares_debounce_with_other_error_dialogs() {
    let mut t = RevocationTracker::new();
    assert!(t.observe(RevocationSource::ErrorDialog("A".into())).is_none());
    assert!(t.observe(RevocationSource::ErrorDialog("B".into())).is_none());
    assert_eq!(t.pending_count(), 1);
}

#[test]
fn each_source_has_expected_next_state() {
    assert_eq!(RevocationSource::JvmDied.next_state(), State::Restarting);
    assert_eq!(RevocationSource::ErrorDialog("x".into()).next_state(), State::Restarting);
    assert_eq!(RevocationSource::ReloginDialog.next_state(), State::ReconnectingSession);
    assert_eq!(RevocationSource::SessionConflict.next_state(), State::HandlingSessionConflict);
    assert_eq!(RevocationSource::LoginFormVisible.next_state(), State::WaitingForLogin);
    assert_eq!(RevocationSource::DisconnectedLabelStable.next_state(), State::WaitingForLogin);
    assert_eq!(
        RevocationSource::WindowClassMorphed { from: "a".into(), to: "b".into() }.next_state(),
        State::WaitingForLogin
    );
}

#[test]
fn debounce_is_exact() {
    let mut t = RevocationTracker::new();
    assert!(t.observe_at(RevocationSource::LoginFormVisible, 7).is_none());
    assert!(t.observe_at(RevocationSource::LoginFormVisible, 7 + SEC - 1).is_none());
    assert!(t.observe_at(RevocationSource::LoginFormVisible, 7 + SEC).is_some());
}

#[test]
fn a_source_fires_once_until_it_is_cleared() {
    let mut t = RevocationTracker::new();
    assert!(t.observe_at(RevocationSource::ReloginDialog, 0).is_some());
    assert!(t.observe_at(RevocationSource::ReloginDialog, SEC).is_none());
    t.clear("relogin_dialog");
    assert_eq!(t.pending_count(), 0);
    assert!(t.observe_at(RevocationSource::ReloginDialog, 2 * SEC).is_some());
}

#[test]
fn clearing_one_timer_leaves_the_others() {
    let mut t = RevocationTracker::default();
    t.observe_at(RevocationSource::LoginFormVisible, 0);
    t.observe_at(RevocationSource::DisconnectedLabelStable, 0);
    t.clear("login_form_visible");
    t.clear("never_seen");
    assert!(!t.is_pending("login_form_visible"));
    assert!(t.is_pending("disconnected_label"));
    assert!(t.observe_at(RevocationSource::DisconnectedLabelStable, 2 * SEC).is_some());
}

#[test]
fn debounces_and_tags() {
    assert_eq!(RevocationSource::JvmDied.debounce(), 0);
    assert_eq!(RevocationSource::ErrorDialog("x".into()).debounce(), 500);
    assert_eq!(RevocationSource::LoginFormVisible.debounce(), 1000);
    assert_eq!(RevocationSource::DisconnectedLabelStable.debounce(), 2000);
    let morph = RevocationSource::WindowClassMorphed { from: "a".into(), to: "b".into() };
    assert_eq!(morph.debounce(), 500);
    assert_eq!(morph.tag(), "window_class_morphed");
    assert_eq!(RevocationSource::SessionConflict.tag(), "session_conflict");
    assert_eq!(morph.clone(), morph);
}

#[test]
fn all_tags_in_bit_order() {
    let all = EvidenceKinds(0b1001_1111);
    assert_eq!(
        all.tags(),
        vec!["ui_snapshot", "window_inventory", "event_stream", "tcp_probe", "supervisor_alive", "forced"]
    );
    assert!(all.contains(EvidenceKinds::forced()));
    assert!(!EvidenceKinds::tcp_probe().contains(EvidenceKinds::event_stream()));
    assert_eq!(EvidenceKinds::window_inventory().bits(), 2);
}

#[test]
fn proofs_age() {
    let p = ConnectedProof::mint(1, 2, EvidenceKinds::tcp_probe());
    let q = p.clone();
    assert_eq!(p, q);
    assert!(q.age() < std::time::Duration::from_secs(15));
}

#[test]
fn a_tag_is_pending_once_observed_since_its_last_clear() {
    let mut t = RevocationTracker::new();
    t.clear("jvm_died");
    t.observe(RevocationSource::JvmDied);
    t.observe(RevocationSource::LoginFormVisible);
    t.clear("login_form_visible");
    assert!(t.is_pending("jvm_died") && !t.is_pending("login_form_visible"));
    t.observe(RevocationSource::LoginFormVisible);
    assert!(t.is_pending("login_form_visible"));
    t.clear_all();
    assert!(!t.is_pending("jvm_died") && !t.is_pending("login_form_visible"));
    assert!(!t.is_pending("no_such_tag"));
}

#[test]
fn observations_run_by_the_clock() {
    let mut t = RevocationTracker::new();
    let dialog = || RevocationSource::ErrorDialog("x".into());
    assert!(t.observe(dialog()).is_none());
    let begin = std::time::Instant::now();
    while begin.elapsed() < std::time::Duration::from_millis(600) {}
    assert_eq!(t.observe(dialog()), Some(dialog()));
}
