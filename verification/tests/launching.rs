//! Spawn planning: strategy order, fallback policy, argument contract,
//! source-directory search, and output-relay decisions.

use engine_supervisor::launcher::{
    engine_cli_args, engine_path_error, fallback_after, first_strategy, interpreter_args,
    join_engine_src, module_path_candidates, relay_action, select_existing_path, spawn_log_level,
    RelayAction, RelayEvent, SpawnStrategy,
};
use engine_supervisor::status::EngineStatus;
use engine_supervisor::supervisor::EngineState;
use engine_supervisor::token::generate_token;

#[test]
fn strategy_order_by_build_mode() {
    assert_eq!(first_strategy(true), SpawnStrategy::Bundled);
    assert_eq!(first_strategy(false), SpawnStrategy::Interpreter);
}

#[test]
fn fallback_only_from_packaged_bundled() {
    assert_eq!(
        fallback_after(true, SpawnStrategy::Bundled),
        Some(SpawnStrategy::Interpreter)
    );
    assert_eq!(fallback_after(true, SpawnStrategy::Interpreter), None);
    assert_eq!(fallback_after(false, SpawnStrategy::Interpreter), None);
    assert_eq!(fallback_after(false, SpawnStrategy::Bundled), None);
}

#[test]
fn bundled_failure_falls_back_to_interpreter() {
    // A packaged build whose bundled spawn fails recovers through the
    // interpreter: the supervisor ends up Running.
    let packaged = true;
    let mut s = EngineState::new();
    s.begin_starting();
    let first = first_strategy(packaged);
    assert_eq!(first, SpawnStrategy::Bundled);
    // The bundled attempt fails (say, the binary is missing); ask for the
    // fallback strategy and let its attempt succeed.
    let second = fallback_after(packaged, first).expect("fallback expected");
    assert_eq!(second, SpawnStrategy::Interpreter);
    s.start_complete(48110, generate_token(), second);
    assert_eq!(s.status, EngineStatus::Running);
    assert_eq!(s.process, Some(SpawnStrategy::Interpreter));
}

#[test]
fn both_strategies_failing_is_an_error() {
    let packaged = true;
    let mut s = EngineState::new();
    s.begin_starting();
    let first = first_strategy(packaged);
    // The first attempt fails, the fallback attempt fails too: nothing is
    // left to try, and the start fails.
    let second = fallback_after(packaged, first);
    assert_eq!(second, Some(SpawnStrategy::Interpreter));
    assert_eq!(fallback_after(packaged, SpawnStrategy::Interpreter), None);
    s.start_fail();
    assert_eq!(s.status, EngineStatus::Error);
}

#[test]
fn log_level_by_build_mode() {
    assert_eq!(spawn_log_level(true), "DEBUG");
    assert_eq!(spawn_log_level(false), "INFO");
}

#[test]
fn cli_argument_contract() {
    let args = engine_cli_args(48123, "tok-abc", 4242, "DEBUG");
    assert_eq!(
        args,
        vec![
            "--port".to_string(),
            "48123".to_string(),
            "--token".to_string(),
            "tok-abc".to_string(),
            "--parent-pid".to_string(),
            "4242".to_string(),
            "--log-level".to_string(),
            "DEBUG".to_string(),
        ]
    );
}

#[test]
fn interpreter_argument_contract() {
    let args = interpreter_args(48100, "t", 1, "INFO");
    assert_eq!(
        args,
        vec![
            "-m".to_string(),
            "engine.main".to_string(),
            "--port".to_string(),
            "48100".to_string(),
            "--token".to_string(),
            "t".to_string(),
            "--parent-pid".to_string(),
            "1".to_string(),
            "--log-level".to_string(),
            "INFO".to_string(),
        ]
    );
}

#[test]
fn source_directory_candidates() {
    assert_eq!(join_engine_src("/work/app"), "/work/app/engine/src");
    let c = module_path_candidates(Some("/r"), Some("/r/app"), "/r/app/src-tauri");
    assert_eq!(
        c,
        vec![
            "/r/engine/src".to_string(),
            "/r/app/engine/src".to_string(),
            "/r/app/src-tauri/engine/src".to_string(),
        ]
    );
    let c2 = module_path_candidates(None, None, "/top");
    assert_eq!(c2, vec!["/top/engine/src".to_string()]);
}

#[test]
fn first_existing_candidate_wins() {
    let candidates = vec!["a".to_string(), "b".to_string(), "c".to_string()];
    assert_eq!(
        select_existing_path(&candidates, &vec![false, true, true]),
        Some("b".to_string())
    );
    assert_eq!(
        select_existing_path(&candidates, &vec![true, false, false]),
        Some("a".to_string())
    );
    assert_eq!(select_existing_path(&candidates, &vec![false, false, false]), None);
}

#[test]
fn missing_source_directory_error() {
    assert_eq!(
        engine_path_error("/some/dir"),
        "Engine path not found. Current dir: /some/dir"
    );
}

#[test]
fn relay_decisions() {
    match relay_action(RelayEvent::StdoutLine(b"out line\n".to_vec())) {
        RelayAction::WriteStdout(l) => assert_eq!(l, b"out line\n".to_vec()),
        _ => panic!("stdout line must go to stdout"),
    }
    match relay_action(RelayEvent::StderrLine(b"err line\n".to_vec())) {
        RelayAction::WriteStderr(l) => assert_eq!(l, b"err line\n".to_vec()),
        _ => panic!("stderr line must go to stderr"),
    }
    match relay_action(RelayEvent::ErrorMessage("boom".to_string())) {
        RelayAction::NoteError(m) => assert_eq!(m, "boom"),
        _ => panic!("errors must be noted"),
    }
    assert!(matches!(relay_action(RelayEvent::Terminated), RelayAction::Finish));
    assert!(matches!(relay_action(RelayEvent::Other), RelayAction::Ignore));
}
