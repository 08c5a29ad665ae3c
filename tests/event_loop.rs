use docker_manager::event_loop::{Action, Controller, Event, Phase};
use docker_manager::reconcile::ReconcileError;

fn controller() -> Controller {
    let catalog = vec!["sha256:aa01".to_string(), "sha256:bb01".to_string()];
    Controller::start("aa".to_string(), "bb".to_string(), &catalog).unwrap()
}

fn listing(v: &[&str]) -> Result<Vec<Option<String>>, String> {
    Ok(v.iter().map(|s| Some(s.to_string())).collect())
}

#[test]
fn tick_reconciles_both_classes() {
    let mut c = controller();
    let a = c.handle(Event::Tick(listing(&["sha256:aa1", "sha256:aa2", "sha256:bb1", "sha256:cc"])));
    assert!(matches!(a, Action::Reconciled { worker: Ok(3), coordinator: Ok(0) }));
    assert_eq!(c.get_worker().get_current(), 2);
    assert_eq!(c.get_coordinator().get_current(), 1);
}

#[test]
fn tick_on_empty_listing() {
    let mut c = controller();
    let a = c.handle(Event::Tick(listing(&[])));
    assert!(matches!(a, Action::Reconciled { worker: Ok(5), coordinator: Ok(1) }));
    assert_eq!(c.get_worker().get_current(), 0);
    assert_eq!(c.get_coordinator().get_current(), 0);
}

#[test]
fn failed_tick_keeps_counts_and_next_tick_recovers() {
    let mut c = controller();
    c.handle(Event::Tick(listing(&["sha256:aa1", "sha256:bb1"])));
    let a = c.handle(Event::Tick(Err("timeout".to_string())));
    assert!(matches!(
        a,
        Action::Reconciled {
            worker: Err(ReconcileError::ListingFailed(_)),
            coordinator: Err(ReconcileError::ListingFailed(_))
        }
    ));
    assert_eq!(c.get_worker().get_current(), 1);
    assert_eq!(c.get_coordinator().get_current(), 1);
    let a = c.handle(Event::Tick(listing(&["sha256:aa1", "sha256:aa2"])));
    assert!(matches!(a, Action::Reconciled { worker: Ok(3), coordinator: Ok(1) }));
    assert_eq!(c.get_coordinator().get_current(), 0);
}

#[test]
fn liveness_is_recorded_while_running() {
    let mut c = controller();
    assert!(matches!(c.handle(Event::Liveness), Action::Recorded));
    assert!(matches!(c.handle(Event::Liveness), Action::Recorded));
    assert_eq!(c.get_liveness_seen(), 2);
}

#[test]
fn shutdown_drains_then_stops() {
    let mut c = controller();
    assert!(matches!(c.handle(Event::Liveness), Action::Recorded));
    assert!(matches!(c.handle(Event::Shutdown), Action::Drain));
    assert_eq!(c.get_phase(), Phase::Draining);
    assert!(matches!(c.handle(Event::Liveness), Action::DroppedOnShutdown));
    assert!(matches!(c.handle(Event::Tick(listing(&["sha256:aa1"]))), Action::Ignored));
    assert_eq!(c.get_worker().get_current(), 0);
    assert!(matches!(c.handle(Event::Shutdown), Action::Ignored));
    assert!(matches!(c.handle(Event::Drained), Action::Exit));
    assert_eq!(c.get_phase(), Phase::Stopped);
    assert!(matches!(c.handle(Event::Liveness), Action::DroppedOnShutdown));
    assert_eq!(c.get_liveness_seen(), 1);
}

#[test]
fn drained_while_running_is_ignored() {
    let mut c = controller();
    assert!(matches!(c.handle(Event::Drained), Action::Ignored));
    assert_eq!(c.get_phase(), Phase::Running);
}
