//! Revisions of a namespace, and the watchers that follow them.

use chevalier_sandbox::span::Span;
use chevalier_sandbox::vfs_publication::namespace_revision;
use chevalier_sandbox::vfs_publication::publication_ack_timeout;
use chevalier_sandbox::vfs_publication::watch_since;
use chevalier_sandbox::vfs_publication::watch_timeout;
use chevalier_sandbox::vfs_publication::watch_watcher_id;
use chevalier_sandbox::vfs_publication::AckEvent;
use chevalier_sandbox::vfs_publication::AckStep;
use chevalier_sandbox::vfs_publication::OwnerState;
use chevalier_sandbox::vfs_publication::WatchTurn;
use chevalier_sandbox::vfs_publication::WatchWake;
use chevalier_sandbox::vfs_publication::PUBLICATION_HISTORY_LIMIT;

fn texts(list: &[&str]) -> Vec<String> {
    list.iter().map(|s| s.to_string()).collect()
}

fn at(millis: u64) -> Span {
    Span::from_millis(millis)
}

fn owner(cap: Span) -> OwnerState {
    OwnerState::new(1_000_000, cap)
}

#[test]
fn watch_returns_immediately_when_revision_exceeds_since() {
    let state = owner(at(25));
    match state.watch_turn(0, at(1000)) {
        WatchTurn::Answer(answer) => {
            assert_eq!(answer.revision, state.revision());
            assert!(answer.revision > 0, "fresh owner revision must exceed since=0");
        },
        other => panic!("{other:?}"),
    }
}

#[test]
fn watch_resolves_promptly_when_a_mutation_publishes() {
    let mut state = owner(at(25));
    // What came before the first publication that is kept is not known.
    match state.watch_turn(0, at(1000)) {
        WatchTurn::Answer(answer) => assert!(answer.truncated),
        other => panic!("{other:?}"),
    }
    let baseline = state.commit(1_000_000, Vec::new());
    assert!(matches!(state.watch_turn(baseline, at(30_000)), WatchTurn::Park));
    let mutated = state.commit(1_000_002, texts(&["folder", ""]));
    assert!(mutated > baseline, "mutation must advance the revision");
    assert_eq!(state.watch_woken(WatchWake::Published), None);
    match state.watch_turn(baseline, at(29_000)) {
        WatchTurn::Answer(answer) => {
            assert_eq!(answer.revision, mutated);
            assert_eq!(answer.paths, texts(&["folder", ""]));
            assert!(!answer.truncated);
        },
        other => panic!("{other:?}"),
    }
}

#[test]
fn watch_times_out_with_204_when_revision_is_unchanged() {
    let state = owner(at(25));
    assert_eq!(watch_since(Some("18446744073709551615")), u64::MAX);
    assert!(matches!(state.watch_turn(u64::MAX, at(1000)), WatchTurn::Park));
    assert_eq!(state.watch_woken(WatchWake::TimedOut), Some(state.revision()));
    assert!(matches!(
        state.watch_turn(u64::MAX, Span::zero()),
        WatchTurn::Idle(revision) if revision == state.revision()
    ));
}

#[test]
fn publication_blocks_until_a_registered_watcher_acks_the_new_revision() {
    let mut state = owner(Span::from_secs(5));
    let baseline = state.revision();
    state.record_watcher_ack("obs-1", baseline, at(30_000), at(0));
    let revision = state.commit(2_000_000, texts(&["folder"]));
    assert_eq!(state.start_ack_wait(revision, at(10)), AckStep::Wait);
    // Waking is no ack: the next poll's revision is.
    assert_eq!(
        state.continue_ack_wait(revision, AckEvent::Progress, at(20)),
        AckStep::Wait
    );
    state.record_watcher_ack("obs-1", revision, at(1000), at(30));
    assert_eq!(
        state.continue_ack_wait(revision, AckEvent::Progress, at(40)),
        AckStep::Answer
    );
}

#[test]
fn publication_fails_open_when_a_registered_watcher_goes_silent() {
    let mut state = owner(at(200));
    let baseline = state.revision();
    state.record_watcher_ack("ghost", baseline, at(30_000), at(0));
    let revision = state.commit(2_000_000, texts(&["folder"]));
    assert_eq!(state.start_ack_wait(revision, at(10)), AckStep::Wait);
    assert_eq!(
        state.continue_ack_wait(revision, AckEvent::CapElapsed, at(210)),
        AckStep::AnswerLate
    );
    assert_eq!(state.warn_publication_lag(revision, at(210), 5_000_000), Some(1));
    assert_eq!(state.warn_publication_lag(revision, at(211), 5_000_001), None);
}

#[test]
fn an_anonymous_watcher_never_gates_a_publication() {
    let mut state = owner(Span::from_secs(5));
    let baseline = state.revision();
    state.record_watcher_ack(&watch_watcher_id(None), baseline, at(30_000), at(0));
    let revision = state.commit(2_000_000, texts(&["folder"]));
    assert_eq!(state.start_ack_wait(revision, at(10)), AckStep::Answer);
}

#[test]
fn a_publication_waits_for_every_registered_watcher() {
    let mut state = owner(Span::from_secs(5));
    let baseline = state.revision();
    state.record_watcher_ack("obs-a", baseline, at(30_000), at(0));
    state.record_watcher_ack("obs-b", baseline, at(30_000), at(0));
    let revision = state.commit(2_000_000, texts(&["folder"]));
    assert_eq!(state.start_ack_wait(revision, at(10)), AckStep::Wait);
    state.record_watcher_ack("obs-a", revision, at(1000), at(20));
    assert_eq!(state.continue_ack_wait(revision, AckEvent::Progress, at(30)), AckStep::Wait);
    state.record_watcher_ack("obs-b", revision, at(1000), at(40));
    assert_eq!(state.continue_ack_wait(revision, AckEvent::Progress, at(50)), AckStep::Answer);
}

#[test]
fn gone_watchers_are_pruned_and_stop_gating_publications() {
    let mut state = owner(Span::from_secs(5));

    // A watcher with a tiny grace, twice its 20 ms timeout, lags now...
    state.record_watcher_ack("obs-gone", 10, at(20), at(0));
    assert_eq!(state.unacked_watchers(100, at(1)), 1);

    // ...but past its grace it is pruned and no longer gates the revision.
    assert_eq!(state.unacked_watchers(100, at(81)), 0);

    // An anonymous ack is never registered, so it gates nothing.
    state.record_watcher_ack("", 10, Span::from_secs(30), at(82));
    assert_eq!(state.unacked_watchers(100, at(83)), 0);
}

#[test]
fn revisions_grow_even_when_the_clock_does_not() {
    let mut state = owner(at(25));
    let first = state.commit(5, Vec::new());
    let second = state.commit(5, Vec::new());
    assert!(second > first);
    let third = state.commit(9_000_000, Vec::new());
    assert_eq!(third, 9_000_000);
    assert_eq!(namespace_revision(Some(Span { secs: 2, nanos: 5_000 })), 2_000_005);
}

#[test]
fn old_watchers_are_told_that_paths_are_missing() {
    let mut state = owner(at(25));
    let baseline = state.revision();
    for i in 0..PUBLICATION_HISTORY_LIMIT + 1 {
        state.commit(0, vec![format!("p{i}")]);
    }
    assert_eq!(state.paths_published_since(baseline), None);
    let last = state.revision();
    assert_eq!(state.paths_published_since(last - 1), Some(texts(&["p256"])));
    match state.watch_turn(baseline, at(1000)) {
        WatchTurn::Answer(answer) => assert!(answer.truncated),
        other => panic!("{other:?}"),
    }
}

#[test]
fn watch_settings_are_held_in_bounds() {
    assert_eq!(watch_timeout(None), at(25_000));
    assert_eq!(watch_timeout(Some("5")), at(1_000));
    assert_eq!(watch_timeout(Some("999999")), at(30_000));
    assert_eq!(watch_timeout(Some("2000")), at(2_000));
    assert_eq!(watch_since(None), 0);
    assert_eq!(watch_since(Some("x")), 0);
    assert_eq!(watch_watcher_id(Some(" a ")), "a");
    assert_eq!(publication_ack_timeout(None), at(25));
    assert_eq!(publication_ack_timeout(Some("100")), at(100));
    assert_eq!(publication_ack_timeout(Some("x")), at(25));
}
