//! The host loop state machine and the change watcher, driven through
//! whole scenarios: steady state, hot swap, double-firing watcher,
//! degenerate resizes, fatal load failure, and shutdown.

use lux::abi::EntryPoint;
use lux::host::{Action, Host, Phase};
use lux::loader::{LoadError, LoadReport, MapOutcome, SymbolReport};
use lux::watcher::Watcher;

fn ok_report() -> LoadReport {
    LoadReport {
        mapped: MapOutcome::Mapped,
        symbols: SymbolReport { create: true, destroy: true, update: true, on_resize: true },
    }
}

fn started_host() -> Host {
    let mut host = Host::new(42);
    let actions = host.start(ok_report()).expect("clean report must start");
    assert_eq!(
        actions,
        vec![Action::LoadModule, Action::CreateInstance { handle: 0 }]
    );
    host
}

#[test]
fn watcher_reports_once_per_occurrence() {
    let mut w = Watcher::new();
    assert!(!w.poll());
    w.note_write();
    assert!(w.poll());
    assert!(!w.poll());
}

#[test]
fn watcher_coalesces_many_writes() {
    // However many writes land between two polls, the poll reports a
    // single occurrence.
    let mut w = Watcher::new();
    for _ in 0..5 {
        w.note_write();
    }
    assert!(w.poll());
    assert!(!w.poll());
}

#[test]
fn startup_loads_then_creates() {
    let host = started_host();
    assert_eq!(host.phase, Phase::Loaded);
    assert_eq!(host.creates, 1);
    assert_eq!(host.loads, 1);
    assert_eq!(host.destroys, 0);
    assert_eq!(host.unloads, 0);
    assert_eq!(host.swaps, 0);
}

#[test]
fn startup_failure_is_fatal() {
    let mut host = Host::new(42);
    let report = LoadReport {
        mapped: MapOutcome::NotFound,
        symbols: SymbolReport { create: true, destroy: true, update: true, on_resize: true },
    };
    assert_eq!(host.start(report), Err(LoadError::NotFound));
    assert_eq!(host.phase, Phase::Error);
    // No further work is ever issued.
    assert_eq!(host.idle_tick(false), vec![]);
    assert_eq!(host.idle_tick(true), vec![]);
}

#[test]
fn quiet_watcher_means_no_swap() {
    // A thousand polls with no occurrence: every tick is exactly one
    // update of the one instance, and nothing is ever torn down.
    let mut host = started_host();
    let mut w = Watcher::new();
    for _ in 0..1000 {
        let changed = w.poll();
        assert!(!changed);
        let actions = host.idle_tick(changed);
        assert_eq!(actions, vec![Action::UpdateInstance { handle: 0 }]);
    }
    assert_eq!(host.swaps, 0);
    assert_eq!(host.creates, 1);
    assert_eq!(host.destroys, 0);
}

#[test]
fn one_occurrence_one_swap_in_order() {
    // One occurrence: exactly one destroy, one unload, one load, one
    // create, in that order, and updates route to the new instance.
    let mut host = started_host();
    let mut w = Watcher::new();
    w.note_write();
    let changed = w.poll();
    assert!(changed);
    let teardown = host.idle_tick(changed);
    assert_eq!(
        teardown,
        vec![
            Action::DestroyInstance { handle: 0 },
            Action::UnloadModule { module_id: 0 },
            Action::CopyArtifact,
            Action::LoadModule,
        ]
    );
    assert_eq!(host.phase, Phase::Swapping);
    let finish = host.finish_swap(ok_report()).expect("clean report must swap");
    assert_eq!(
        finish,
        vec![
            Action::CreateInstance { handle: 1 },
            Action::UpdateInstance { handle: 1 },
        ]
    );
    assert_eq!(host.destroys, 1);
    assert_eq!(host.unloads, 1);
    assert_eq!(host.loads, 2);
    assert_eq!(host.creates, 2);
    assert_eq!(host.swaps, 1);
    // Subsequent updates go to the new instance.
    assert_eq!(host.idle_tick(false), vec![Action::UpdateInstance { handle: 1 }]);
}

#[test]
fn swap_keeps_window_and_replaces_handle() {
    let mut host = started_host();
    let window_before = host.window;
    let old_handle = host.active.expect("live after start").handle;
    host.idle_tick(true);
    host.finish_swap(ok_report()).expect("clean report must swap");
    assert_eq!(host.window, window_before);
    let new_handle = host.active.expect("live after swap").handle;
    assert_ne!(new_handle, old_handle);
}

#[test]
fn double_fire_collapses_to_one_swap() {
    // The watcher fires twice in rapid succession: the second occurrence
    // collapses, one swap runs in order, and the next tick is a plain
    // update of the fresh instance.
    let mut host = started_host();
    let mut w = Watcher::new();
    w.note_write();
    w.note_write();
    assert!(w.poll());
    let teardown = host.idle_tick(true);
    assert_eq!(teardown[0], Action::DestroyInstance { handle: 0 });
    host.finish_swap(ok_report()).expect("clean report must swap");
    // The second write was part of the same occurrence: nothing pending.
    assert!(!w.poll());
    assert_eq!(host.idle_tick(false), vec![Action::UpdateInstance { handle: 1 }]);
    assert_eq!(host.swaps, 1);
    assert_eq!(host.destroys, 1);
}

#[test]
fn failed_swap_halts_all_updates() {
    // The swapped-in module lacks its update symbol: fatal error state,
    // and no update is ever issued again.
    let mut host = started_host();
    host.idle_tick(true);
    let report = LoadReport {
        mapped: MapOutcome::Mapped,
        symbols: SymbolReport { create: true, destroy: true, update: false, on_resize: true },
    };
    assert_eq!(
        host.finish_swap(report),
        Err(LoadError::MissingSymbol(EntryPoint::Update))
    );
    assert_eq!(host.phase, Phase::Error);
    for _ in 0..10 {
        assert_eq!(host.idle_tick(false), vec![]);
    }
}

#[test]
fn degenerate_resize_then_real_resize_keeps_updating() {
    // A zero-by-zero resize followed by a positive one: both are
    // forwarded, the host is untouched, and updates keep flowing to the
    // same instance.
    let mut host = started_host();
    assert_eq!(
        host.on_resize(0, 0),
        vec![Action::DispatchResize { handle: 0, width: 0, height: 0 }]
    );
    assert_eq!(
        host.on_resize(800, 600),
        vec![Action::DispatchResize { handle: 0, width: 800, height: 600 }]
    );
    assert_eq!(host.idle_tick(false), vec![Action::UpdateInstance { handle: 0 }]);
}

#[test]
fn resize_without_instance_dispatches_nothing() {
    let host = Host::new(42);
    assert_eq!(host.on_resize(800, 600), vec![]);
}

#[test]
fn shutdown_balances_creates_and_destroys() {
    // Close tears down in order destroy, then unload; afterwards every
    // create is matched by a destroy and every load by an unload.
    let mut host = started_host();
    for _ in 0..3 {
        host.idle_tick(false);
    }
    let teardown = host.on_close();
    assert_eq!(
        teardown,
        vec![
            Action::DestroyInstance { handle: 0 },
            Action::UnloadModule { module_id: 0 },
        ]
    );
    assert_eq!(host.phase, Phase::ShuttingDown);
    assert_eq!(host.creates, host.destroys);
    assert_eq!(host.loads, host.unloads);
    host.exited();
    assert_eq!(host.phase, Phase::Unloaded);
}

#[test]
fn lifecycle_with_swaps_stays_balanced() {
    // create -> updates -> swap -> updates -> close: across the whole
    // lifetime the number of creates equals the number of destroys.
    let mut host = started_host();
    host.idle_tick(false);
    host.idle_tick(true);
    host.finish_swap(ok_report()).expect("clean report must swap");
    host.idle_tick(false);
    host.on_close();
    assert_eq!(host.creates, 2);
    assert_eq!(host.destroys, 2);
    assert_eq!(host.loads, host.unloads);
}
