//! Lifecycle scenarios: the supervisor's state machine as the application
//! drives it.

use engine_supervisor::launcher::SpawnStrategy;
use engine_supervisor::status::EngineStatus;
use engine_supervisor::supervisor::{
    get_engine_port, get_engine_status, get_engine_token, EngineState,
};
use engine_supervisor::token::generate_token;

#[test]
fn new_initial_state() {
    let s = EngineState::new();
    assert_eq!(s.status, EngineStatus::Stopped);
    assert_eq!(s.port, 48100);
    assert_eq!(get_engine_token(&s), "");
    assert!(s.process.is_none());
}

#[test]
fn start_precheck_none_when_stopped() {
    let s = EngineState::new();
    assert_eq!(s.start_precheck(), None);
}

#[test]
fn start_then_queries_running() {
    let mut s = EngineState::new();
    assert_eq!(s.start_precheck(), None);
    s.begin_starting();
    assert_eq!(s.status, EngineStatus::Starting);
    let token = generate_token();
    s.start_complete(48123, token, SpawnStrategy::Interpreter);
    let info = get_engine_status(&s);
    assert_eq!(info.status, EngineStatus::Running);
    assert_eq!(info.port, 48123);
    assert!((48100..48200).contains(&get_engine_port(&s)));
    assert!(!get_engine_token(&s).is_empty());
}

#[test]
fn start_idempotent_returns_existing_port() {
    let mut s = EngineState::new();
    s.begin_starting();
    s.start_complete(48155, generate_token(), SpawnStrategy::Bundled);
    assert_eq!(s.start_precheck(), Some(48155));
    let mut t = EngineState::new();
    t.begin_starting();
    assert_eq!(t.start_precheck(), Some(48100));
}

#[test]
fn stop_clears_state() {
    let mut s = EngineState::new();
    s.begin_starting();
    s.start_complete(48123, generate_token(), SpawnStrategy::Interpreter);
    s.stop_finish();
    assert_eq!(get_engine_status(&s).status, EngineStatus::Stopped);
    assert_eq!(get_engine_token(&s), "");
    assert!(s.process.is_none());
}

#[test]
fn stop_when_already_stopped() {
    let mut s = EngineState::new();
    s.stop_finish();
    assert_eq!(s.status, EngineStatus::Stopped);
    assert_eq!(get_engine_port(&s), 48100);
    assert_eq!(get_engine_token(&s), "");
}

#[test]
fn start_fail_sets_error_and_allows_retry() {
    let mut s = EngineState::new();
    s.begin_starting();
    s.start_fail();
    assert_eq!(s.status, EngineStatus::Error);
    assert_eq!(get_engine_token(&s), "");
    assert!(s.process.is_none());
    // Error is a dead end only until a fresh start.
    assert_eq!(s.start_precheck(), None);
    s.begin_starting();
    s.start_complete(48101, generate_token(), SpawnStrategy::Interpreter);
    assert_eq!(s.status, EngineStatus::Running);
}
