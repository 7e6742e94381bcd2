use rustlab_presentations::watch::{
    is_relevant_event, is_watched_kind, ChangeKind, DebounceGate, PathReport,
};

#[test]
fn first_event_fires_immediately() {
    let mut gate = DebounceGate::new(100);
    assert!(gate.observe(true, ChangeKind::Modify, 0));
}

#[test]
fn events_inside_the_window_are_suppressed() {
    // Two events ten milliseconds apart under a 100 ms debounce: only
    // the first fires.
    let mut gate = DebounceGate::new(100);
    let mut fires = 0;
    if gate.observe(true, ChangeKind::Modify, 1000) {
        fires += 1;
    }
    if gate.observe(true, ChangeKind::Modify, 1010) {
        fires += 1;
    }
    assert_eq!(fires, 1);
}

#[test]
fn events_outside_the_window_both_fire() {
    // Two events 150 ms apart under a 100 ms debounce both fire.
    let mut gate = DebounceGate::new(100);
    let mut fires = 0;
    if gate.observe(true, ChangeKind::Modify, 1000) {
        fires += 1;
    }
    if gate.observe(true, ChangeKind::Modify, 1150) {
        fires += 1;
    }
    assert_eq!(fires, 2);
}

#[test]
fn window_boundary_fires() {
    let mut gate = DebounceGate::new(100);
    assert!(gate.observe(true, ChangeKind::Modify, 1000));
    assert!(!gate.observe(true, ChangeKind::Modify, 1099));
    assert!(gate.observe(true, ChangeKind::Modify, 1100));
}

#[test]
fn suppressed_events_are_dropped_not_queued() {
    // The window is measured from the previous fire, not from the last
    // suppressed event.
    let mut gate = DebounceGate::new(100);
    assert!(gate.observe(true, ChangeKind::Modify, 1000));
    assert!(!gate.observe(true, ChangeKind::Modify, 1090));
    assert!(gate.observe(true, ChangeKind::Modify, 1101));
}

#[test]
fn irrelevant_and_filtered_events_leave_the_gate_untouched() {
    let mut gate = DebounceGate::new(100);
    assert!(!gate.observe(false, ChangeKind::Modify, 1000));
    assert!(!gate.observe(true, ChangeKind::Other, 1005));
    // Still unprimed: the next accepted event fires immediately.
    assert!(gate.observe(true, ChangeKind::Create, 1006));
}

#[test]
fn only_change_kinds_are_watched() {
    assert!(is_watched_kind(ChangeKind::Modify));
    assert!(is_watched_kind(ChangeKind::Create));
    assert!(is_watched_kind(ChangeKind::Remove));
    assert!(!is_watched_kind(ChangeKind::Other));
}

fn report(raw: &str, canonical: Option<&str>) -> PathReport {
    PathReport {
        raw: raw.to_string(),
        canonical: canonical.map(|c| c.to_string()),
    }
}

#[test]
fn canonical_path_match_is_relevant() {
    let reports = vec![
        report("/tmp/other", Some("/real/other")),
        report("/tmp/link", Some("/real/script.txt")),
    ];
    let canonical = "/real/script.txt".to_string();
    let original = "/tmp/link".to_string();
    assert!(is_relevant_event(&reports, &canonical, &original));
}

#[test]
fn unresolved_path_falls_back_to_literal_equality() {
    let canonical = "/real/script.txt".to_string();
    let original = "script.txt".to_string();
    let by_original = vec![report("script.txt", None)];
    assert!(is_relevant_event(&by_original, &canonical, &original));
    let by_canonical = vec![report("/real/script.txt", None)];
    assert!(is_relevant_event(&by_canonical, &canonical, &original));
}

#[test]
fn unrelated_paths_are_irrelevant() {
    let canonical = "/real/script.txt".to_string();
    let original = "script.txt".to_string();
    let reports = vec![report("/somewhere/else", None), report("/x", Some("/real/else"))];
    assert!(!is_relevant_event(&reports, &canonical, &original));
    assert!(!is_relevant_event(&Vec::new(), &canonical, &original));
}
