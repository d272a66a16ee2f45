use scriptvault::execution::{
    capture_streams, engine_step, filter_history, get_extension, get_interpreter_command,
    history_limit, last_n_reversed, new_execution_record, normalize_exit_code, plan_run_gate,
    record_run, RunEvent, RunPhase,
};
use scriptvault::script::{ExecutionRecord, ScriptContext, ScriptLanguage, ScriptMetadata};

fn empty_context() -> ScriptContext {
    ScriptContext {
        directory: None,
        git_repo: None,
        git_branch: None,
        environment: Vec::new(),
    }
}

fn fresh_metadata() -> ScriptMetadata {
    ScriptMetadata {
        hash: "h".to_string(),
        size_bytes: 1,
        line_count: 1,
        use_count: 0,
        success_count: 0,
        failure_count: 0,
        last_run: None,
        last_run_by: None,
        avg_runtime_ms: None,
    }
}

fn record(id: &str, script_id: &str, exit_code: i32) -> ExecutionRecord {
    ExecutionRecord {
        id: id.to_string(),
        script_id: script_id.to_string(),
        script_version: "v1.0.0".to_string(),
        executed_by: "user".to_string(),
        executed_at: 1_700_000_000_000,
        exit_code,
        duration_ms: 5,
        output: None,
        error: None,
        context: empty_context(),
    }
}

#[test]
fn test_engine_step_happy_path() {
    let mut p = RunPhase::Loaded;
    p = engine_step(p, RunEvent::SafetyPassed);
    assert_eq!(p, RunPhase::SafetyChecked);
    p = engine_step(p, RunEvent::PreviewRendered);
    assert_eq!(p, RunPhase::PreviewShown);
    p = engine_step(p, RunEvent::ConfirmAccepted);
    assert_eq!(p, RunPhase::Confirmed);
    p = engine_step(p, RunEvent::ProcessSpawned);
    assert_eq!(p, RunPhase::Executing);
    p = engine_step(p, RunEvent::OutcomeRecorded);
    assert_eq!(p, RunPhase::Recorded);
}

#[test]
fn test_engine_step_cancellations() {
    assert_eq!(
        engine_step(RunPhase::Loaded, RunEvent::SafetyDeclined),
        RunPhase::Cancelled
    );
    assert_eq!(
        engine_step(RunPhase::PreviewShown, RunEvent::ConfirmDeclined),
        RunPhase::Cancelled
    );
    assert_eq!(
        engine_step(RunPhase::PreviewShown, RunEvent::DryRunRequested),
        RunPhase::DryRunStopped
    );
    // an event that does not apply leaves the phase unchanged
    assert_eq!(
        engine_step(RunPhase::Cancelled, RunEvent::ProcessSpawned),
        RunPhase::Cancelled
    );
}

#[test]
fn test_plan_run_gate() {
    let g = plan_run_gate(false, false, false, true);
    assert!(g.safety_prompt);
    assert!(g.confirm_prompt);
    assert!(!g.dry_run_stop);

    // unattended mode suppresses both prompts
    let ci = plan_run_gate(false, true, false, true);
    assert!(!ci.safety_prompt);
    assert!(!ci.confirm_prompt);

    // a dry run suppresses prompts and stops after the preview
    let dry = plan_run_gate(false, false, true, true);
    assert!(!dry.safety_prompt);
    assert!(!dry.confirm_prompt);
    assert!(dry.dry_run_stop);

    let safe = plan_run_gate(true, false, false, false);
    assert!(!safe.safety_prompt);
    assert!(!safe.confirm_prompt);
}

#[test]
fn test_interpreter_command() {
    assert_eq!(
        get_interpreter_command(&ScriptLanguage::Bash),
        ("bash", vec![])
    );
    assert_eq!(get_interpreter_command(&ScriptLanguage::Shell), ("sh", vec![]));
    assert_eq!(
        get_interpreter_command(&ScriptLanguage::Python),
        ("python3", vec![])
    );
    assert_eq!(
        get_interpreter_command(&ScriptLanguage::PowerShell),
        ("powershell", vec!["-File"])
    );
    assert_eq!(
        get_interpreter_command(&ScriptLanguage::JavaScript),
        ("bash", vec![])
    );
}

#[test]
fn test_get_extension() {
    assert_eq!(get_extension(&ScriptLanguage::Bash), "sh");
    assert_eq!(get_extension(&ScriptLanguage::Python), "py");
    assert_eq!(get_extension(&ScriptLanguage::Batch), "bat");
    assert_eq!(get_extension(&ScriptLanguage::Unknown), "sh");
}

#[test]
fn test_normalize_exit_code() {
    assert_eq!(normalize_exit_code(Some(0)), 0);
    assert_eq!(normalize_exit_code(Some(7)), 7);
    assert_eq!(normalize_exit_code(None), 1);
}

#[test]
fn test_capture_streams() {
    let (out, err) = capture_streams("hello\n".to_string(), String::new());
    assert_eq!(out.as_deref(), Some("hello\n"));
    assert!(err.is_none());

    let (_, err) = capture_streams(String::new(), "boom".to_string());
    assert_eq!(err.as_deref(), Some("boom"));
}

#[test]
fn test_record_run_first_run_sets_average() {
    let mut md = fresh_metadata();
    record_run(&mut md, 0, 100, 1_700_000_000_000, "alex".to_string());
    assert_eq!(md.use_count, 1);
    assert_eq!(md.success_count, 1);
    assert_eq!(md.failure_count, 0);
    assert_eq!(md.avg_runtime_ms, Some(100));
    assert_eq!(md.last_run, Some(1_700_000_000_000));
    assert_eq!(md.last_run_by.as_deref(), Some("alex"));
}

#[test]
fn test_record_run_running_mean() {
    let mut md = fresh_metadata();
    record_run(&mut md, 0, 100, 1, "a".to_string());
    record_run(&mut md, 1, 50, 2, "b".to_string());
    assert_eq!(md.use_count, 2);
    assert_eq!(md.success_count, 1);
    assert_eq!(md.failure_count, 1);
    // (100 + 50) / 2, with integer division
    assert_eq!(md.avg_runtime_ms, Some(75));
}

#[test]
fn test_record_run_integer_division_drift() {
    let mut md = fresh_metadata();
    record_run(&mut md, 0, 3, 1, "a".to_string());
    record_run(&mut md, 0, 4, 2, "a".to_string());
    // (3 + 4) / 2 == 3 under integer division
    assert_eq!(md.avg_runtime_ms, Some(3));
}

#[test]
fn test_new_execution_record() {
    let r = new_execution_record(
        "script-1".to_string(),
        "v1.0.0".to_string(),
        "alex".to_string(),
        42,
        0,
        12,
        Some("ok".to_string()),
        None,
        empty_context(),
    );
    assert_eq!(r.id.len(), 36);
    assert_eq!(r.script_id, "script-1");
    assert_eq!(r.exit_code, 0);
    assert_eq!(r.duration_ms, 12);
}

#[test]
fn test_history_filter_by_script() {
    let records = vec![
        record("r1", "s1", 0),
        record("r2", "s2", 1),
        record("r3", "s1", 2),
    ];
    let idx = filter_history(&records, Some("s1"), false);
    assert_eq!(idx, vec![0, 2]);
}

#[test]
fn test_history_filter_failed_only() {
    let records = vec![
        record("r1", "s1", 0),
        record("r2", "s2", 1),
        record("r3", "s1", 2),
    ];
    let idx = filter_history(&records, None, true);
    assert_eq!(idx, vec![1, 2]);

    let both = filter_history(&records, Some("s1"), true);
    assert_eq!(both, vec![2]);
}

#[test]
fn test_history_limits_and_order() {
    assert_eq!(history_limit(false), 20);
    assert_eq!(history_limit(true), 10);

    let mut records = Vec::new();
    for i in 0..25 {
        records.push(record(&format!("r{}", i), "s", 0));
    }
    let idx = filter_history(&records, None, false);
    assert_eq!(idx.len(), 25);

    let newest_default = last_n_reversed(&idx, history_limit(false));
    assert_eq!(newest_default.len(), 20);
    assert_eq!(newest_default[0], 24);
    assert_eq!(newest_default[19], 5);

    let newest_recent = last_n_reversed(&idx, history_limit(true));
    assert_eq!(newest_recent.len(), 10);
    assert_eq!(newest_recent[0], 24);
    assert_eq!(newest_recent[9], 15);
}
