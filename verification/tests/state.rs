use pf_widgets::state::{reconcile, Controlled, Notice};

fn after_updates(mut state: Controlled, updates: &[bool]) -> Controlled {
    for controlling in updates {
        state = state.update(*controlling);
    }
    state
}

#[test]
fn reconcile_takes_a_changed_controlling_value() {
    assert!(reconcile(false, true, false));
    assert!(reconcile(false, true, true));
    assert!(!reconcile(true, false, true));
    assert!(!reconcile(true, false, false));
}

#[test]
fn reconcile_keeps_local_value_when_unchanged() {
    assert!(reconcile(false, false, true));
    assert!(!reconcile(false, false, false));
    assert!(reconcile(true, true, true));
    assert!(!reconcile(true, true, false));
}

#[test]
fn mount_seeds_local_state() {
    let state = Controlled::mount(true);
    assert!(state.value());
    assert_eq!(state, Controlled { local: true, observed: true });
    let state = Controlled::mount(false);
    assert!(!state.value());
    assert_eq!(state, Controlled { local: false, observed: false });
}

#[test]
fn latest_controlling_value_wins_after_any_updates() {
    let cases: [(bool, &[bool]); 6] = [
        (false, &[]),
        (true, &[]),
        (false, &[true]),
        (false, &[true, false]),
        (true, &[true, true, false, false, true]),
        (false, &[false, false, false]),
    ];
    for (first, rest) in cases {
        let state = after_updates(Controlled::mount(first), rest);
        let latest = rest.last().copied().unwrap_or(first);
        assert_eq!(state.value(), latest);
        assert_eq!(state.observed, latest);
    }
}

#[test]
fn update_overwrites_interaction_when_value_changes() {
    let state = Controlled::mount(false).toggle();
    assert!(state.value());
    let state = state.update(true);
    assert_eq!(state, Controlled { local: true, observed: true });
    let state = state.toggle().toggle().toggle();
    assert!(!state.value());
    assert_eq!(state.update(false), Controlled { local: false, observed: false });
    assert_eq!(state.toggle().update(false), Controlled { local: false, observed: false });
}

#[test]
fn update_with_same_value_keeps_interaction() {
    let state = Controlled::mount(false).toggle();
    assert_eq!(state, Controlled { local: true, observed: false });
    assert_eq!(state.update(false), state);
    assert_eq!(state.update(false).update(false), state);
}

#[test]
fn toggle_flips_local_and_leaves_observed() {
    let state = Controlled::mount(true);
    let once = state.toggle();
    assert_eq!(once, Controlled { local: false, observed: true });
    let twice = once.toggle();
    assert_eq!(twice, state);
}

#[test]
fn replace_sets_local_and_leaves_observed() {
    let state = Controlled::mount(false);
    assert_eq!(state.replace(true), Controlled { local: true, observed: false });
    assert_eq!(state.replace(false), state);
    assert_eq!(state.replace(true).replace(true), Controlled { local: true, observed: false });
}

#[test]
fn notices_compare_by_payload() {
    assert_eq!(Notice::Value(true), Notice::Value(true));
    assert_ne!(Notice::Value(true), Notice::Value(false));
    assert_ne!(Notice::Signal, Notice::Value(false));
}

#[test]
fn updates_win_or_change_nothing() {
    for local in [false, true] {
        for observed in [false, true] {
            let state = Controlled { local, observed };
            for length in 0..5usize {
                for bits in 0..(1u32 << length) {
                    let updates: Vec<bool> = (0..length).map(|i| bits & (1 << i) != 0).collect();
                    let after = after_updates(state, &updates);
                    let latest = updates.last().copied().unwrap_or(observed);
                    assert_eq!(after.observed, latest);
                    let untouched = updates.iter().all(|update| *update == observed);
                    if untouched {
                        assert_eq!(after, state);
                    } else {
                        assert_eq!(after.local, latest);
                    }
                }
            }
        }
    }
}
