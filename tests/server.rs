use tt_health_daemon::{AcceptEvent, ListenerAction, WorkerBudget};

#[test]
fn accept_loop_decisions() {
    let mut b = WorkerBudget::new(2);
    assert_eq!(b.on_accept(AcceptEvent::Connected), ListenerAction::Spawn);
    assert_eq!(b.on_accept(AcceptEvent::Connected), ListenerAction::Spawn);
    assert_eq!(b.active(), 2);
    assert_eq!(b.on_accept(AcceptEvent::Connected), ListenerAction::Refuse);
    assert_eq!(b.active(), 2);
    b.finish();
    assert_eq!(b.active(), 1);
    assert_eq!(b.on_accept(AcceptEvent::Connected), ListenerAction::Spawn);
    assert_eq!(b.on_accept(AcceptEvent::Failed), ListenerAction::Stop);
}

#[test]
fn client_that_leaves_at_once_frees_its_worker() {
    let mut b = WorkerBudget::new(1);
    for _ in 0..100 {
        assert_eq!(b.on_accept(AcceptEvent::Connected), ListenerAction::Spawn);
        b.finish();
    }
    assert_eq!(b.active(), 0);
    b.finish();
    assert_eq!(b.active(), 0);
}
