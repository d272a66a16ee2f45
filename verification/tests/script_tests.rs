use scriptvault::script::{
    ExecutionRecord, Script, ScriptContext, ScriptLanguage, ScriptMetadata, Visibility,
};

fn empty_context() -> ScriptContext {
    ScriptContext {
        directory: None,
        git_repo: None,
        git_branch: None,
        environment: Vec::new(),
    }
}

#[test]
fn test_language_from_extension() {
    assert_eq!(ScriptLanguage::from_extension("sh"), ScriptLanguage::Shell);
    assert_eq!(ScriptLanguage::from_extension("bash"), ScriptLanguage::Bash);
    assert_eq!(ScriptLanguage::from_extension("py"), ScriptLanguage::Python);
    assert_eq!(
        ScriptLanguage::from_extension("js"),
        ScriptLanguage::JavaScript
    );
    assert_eq!(ScriptLanguage::from_extension("rb"), ScriptLanguage::Ruby);
    assert_eq!(ScriptLanguage::from_extension("pl"), ScriptLanguage::Perl);
    assert_eq!(
        ScriptLanguage::from_extension("ps1"),
        ScriptLanguage::PowerShell
    );
    assert_eq!(ScriptLanguage::from_extension("bat"), ScriptLanguage::Batch);
    assert_eq!(ScriptLanguage::from_extension("cmd"), ScriptLanguage::Batch);
    assert_eq!(
        ScriptLanguage::from_extension("xyz"),
        ScriptLanguage::Unknown
    );
}

#[test]
fn test_from_extension_mixed_case() {
    assert_eq!(ScriptLanguage::from_extension("SH"), ScriptLanguage::Shell);
    assert_eq!(ScriptLanguage::from_extension("Py"), ScriptLanguage::Python);
    assert_eq!(ScriptLanguage::from_extension("PS1"), ScriptLanguage::PowerShell);
}

#[test]
fn test_language_to_string() {
    assert_eq!(ScriptLanguage::Bash.to_string(), "bash");
    assert_eq!(ScriptLanguage::Python.to_string(), "python");
    assert_eq!(ScriptLanguage::Shell.to_string(), "shell");
    assert_eq!(ScriptLanguage::Unknown.to_string(), "unknown");
}

#[test]
fn test_shebang() {
    assert_eq!(
        ScriptLanguage::Bash.get_shebang(),
        Some("#!/usr/bin/env bash")
    );
    assert_eq!(
        ScriptLanguage::Python.get_shebang(),
        Some("#!/usr/bin/env python3")
    );
    assert_eq!(ScriptLanguage::Shell.get_shebang(), Some("#!/bin/sh"));
    assert_eq!(ScriptLanguage::PowerShell.get_shebang(), None);
}

#[test]
fn test_script_creation() {
    let script = Script::new(
        "test-script".to_string(),
        "echo 'hello'".to_string(),
        ScriptLanguage::Bash,
    );

    assert_eq!(script.name, "test-script");
    assert_eq!(script.content, "echo 'hello'");
    assert_eq!(script.language, ScriptLanguage::Bash);
    assert_eq!(script.version, "v1.0.0");
    assert_eq!(script.metadata.use_count, 0);
    assert_eq!(script.visibility, Visibility::Private);
}

#[test]
fn test_script_creation_metrics() {
    let script = Script::new(
        "hash-check".to_string(),
        "echo 'hello'".to_string(),
        ScriptLanguage::Bash,
    );

    assert_eq!(
        script.metadata.hash,
        "3b084aa6ad2246428c9270825d8631e077b7e7c9bb16f6cafb482bc7fd63e348"
    );
    assert_eq!(script.metadata.size_bytes, 12);
    assert_eq!(script.metadata.line_count, 1);
    assert_eq!(script.id.len(), 36);
    assert_eq!(script.author, "local");
    assert!(script.metadata.avg_runtime_ms.is_none());
}

#[test]
fn test_line_count_multiline() {
    let script = Script::new(
        "lines".to_string(),
        "a\nb\nc\n".to_string(),
        ScriptLanguage::Shell,
    );
    assert_eq!(script.metadata.line_count, 3);

    let unterminated = Script::new(
        "lines2".to_string(),
        "a\nb".to_string(),
        ScriptLanguage::Shell,
    );
    assert_eq!(unterminated.metadata.line_count, 2);
}

#[test]
fn test_script_safety_check_safe() {
    let safe_script = Script::new(
        "safe".to_string(),
        "echo 'Hello World'\nls -la\n".to_string(),
        ScriptLanguage::Bash,
    );

    assert!(safe_script.is_safe());
}

#[test]
fn test_script_safety_check_dangerous() {
    let dangerous_scripts = vec![
        "rm -rf /",
        "rm -rf /*",
        "mkfs /dev/sda",
        "dd if=/dev/zero of=/dev/sda",
        "> /dev/sda",
        ":(){ :|:& };:",
    ];

    for dangerous_content in dangerous_scripts {
        let script = Script::new(
            "dangerous".to_string(),
            dangerous_content.to_string(),
            ScriptLanguage::Bash,
        );
        assert!(!script.is_safe(), "Failed to detect: {}", dangerous_content);
    }
}

#[test]
fn test_success_rate_zero_runs() {
    let script = Script::new(
        "test".to_string(),
        "echo test".to_string(),
        ScriptLanguage::Bash,
    );

    assert_eq!(script.success_rate() as f64, 0.0);
}

#[test]
fn test_success_rate_calculation() {
    let mut script = Script::new(
        "test".to_string(),
        "echo test".to_string(),
        ScriptLanguage::Bash,
    );

    script.metadata.success_count = 8;
    script.metadata.failure_count = 2;

    assert_eq!(script.success_rate() as f64, 80.0);
}

#[test]
fn test_success_rate_perfect() {
    let mut script = Script::new(
        "test".to_string(),
        "echo test".to_string(),
        ScriptLanguage::Bash,
    );

    script.metadata.success_count = 10;
    script.metadata.failure_count = 0;

    assert_eq!(script.success_rate() as f64, 100.0);
}

#[test]
fn test_execution_record_was_successful() {
    let record = ExecutionRecord {
        id: "test-id".to_string(),
        script_id: "script-id".to_string(),
        script_version: "v1.0.0".to_string(),
        executed_by: "user".to_string(),
        executed_at: 1_700_000_000_000,
        exit_code: 0,
        duration_ms: 1000,
        output: Some("Success".to_string()),
        error: None,
        context: empty_context(),
    };

    assert!(record.was_successful());
}

#[test]
fn test_execution_record_was_failed() {
    let record = ExecutionRecord {
        id: "test-id".to_string(),
        script_id: "script-id".to_string(),
        script_version: "v1.0.0".to_string(),
        executed_by: "user".to_string(),
        executed_at: 1_700_000_000_000,
        exit_code: 1,
        duration_ms: 1000,
        output: None,
        error: Some("Error".to_string()),
        context: empty_context(),
    };

    assert!(!record.was_successful());
}

#[test]
fn test_metadata_fields_preserved() {
    let script = Script::new(
        "meta".to_string(),
        "echo test".to_string(),
        ScriptLanguage::Bash,
    );
    let md: &ScriptMetadata = &script.metadata;
    assert_eq!(md.success_count, 0);
    assert_eq!(md.failure_count, 0);
    assert!(md.last_run.is_none());
    assert!(md.last_run_by.is_none());
    assert_eq!(script.created_at, script.updated_at);
}
