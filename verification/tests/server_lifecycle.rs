use felix_dns::server::next_loop_event;
use felix_dns::{LoopEvent, ServerLifecycle, ServerPhase};

#[test]
fn lifecycle_runs_and_stops() {
    let mut server = ServerLifecycle::new();
    assert_eq!(server.phase(), ServerPhase::Created);
    server.on_bound();
    assert_eq!(server.phase(), ServerPhase::Running);
    server.observe_shutdown();
    assert_eq!(server.phase(), ServerPhase::ShuttingDown);
    server.on_loop_exit();
    assert_eq!(server.phase(), ServerPhase::Stopped);
}

#[test]
fn bind_failure_is_fatal() {
    let mut server = ServerLifecycle::new();
    server.on_bind_failed();
    assert_eq!(server.phase(), ServerPhase::Stopped);
}

#[test]
fn shutdown_signal_fires_once() {
    let mut server = ServerLifecycle::new();
    server.on_bound();
    assert!(server.request_shutdown());
    assert!(!server.request_shutdown());
    assert_eq!(server.phase(), ServerPhase::Running);
}

#[test]
fn shutdown_has_priority_over_datagrams() {
    assert_eq!(next_loop_event(true, true), LoopEvent::Shutdown);
    assert_eq!(next_loop_event(true, false), LoopEvent::Shutdown);
    assert_eq!(next_loop_event(false, true), LoopEvent::Receive);
    assert_eq!(next_loop_event(false, false), LoopEvent::Idle);
}
