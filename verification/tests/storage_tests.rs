use scriptvault::errors::VaultError;
use scriptvault::local::LocalStorage;
use scriptvault::script::{Script, ScriptContext, ScriptLanguage, ScriptMetadata, Visibility};
use scriptvault::storage::{
    create_storage_backend, parse_backend_selector, BackendKind, StorageBackend, StorageConfig,
};

fn create_test_script(name: &str) -> Script {
    Script {
        id: format!("id-{}", name),
        name: name.to_string(),
        content: format!("echo '{}'", name),
        version: "v1.0.0".to_string(),
        language: ScriptLanguage::Bash,
        tags: vec![],
        description: None,
        author: "test".to_string(),
        created_at: 1_700_000_000_000,
        updated_at: 1_700_000_000_000,
        context: ScriptContext {
            directory: None,
            git_repo: None,
            git_branch: None,
            environment: Vec::new(),
        },
        metadata: ScriptMetadata {
            hash: "test".to_string(),
            size_bytes: 10,
            line_count: 1,
            use_count: 0,
            success_count: 0,
            failure_count: 0,
            last_run: None,
            last_run_by: None,
            avg_runtime_ms: None,
        },
        visibility: Visibility::Private,
    }
}

#[test]
fn test_save_and_load_script() {
    let mut storage = LocalStorage::new();

    let script = create_test_script("test-script");
    let script_id = script.id.clone();

    storage.save_script(script).unwrap();

    let loaded = storage.load_script(&script_id).unwrap();
    assert_eq!(loaded.name, "test-script");
}

#[test]
fn test_list_scripts() {
    let mut storage = LocalStorage::new();

    storage.save_script(create_test_script("script1")).unwrap();
    storage.save_script(create_test_script("script2")).unwrap();
    storage.save_script(create_test_script("script3")).unwrap();

    let scripts = storage.list_scripts().unwrap();
    assert_eq!(scripts.len(), 3);
}

#[test]
fn test_delete_script() {
    let mut storage = LocalStorage::new();

    let script = create_test_script("to-delete");
    let script_id = script.id.clone();

    storage.save_script(script).unwrap();
    assert!(storage.script_exists(&script_id).unwrap());

    storage.delete_script(&script_id).unwrap();
    assert!(!storage.script_exists(&script_id).unwrap());
}

#[test]
fn test_delete_missing_script_is_not_found() {
    let mut storage = LocalStorage::new();
    storage.save_script(create_test_script("kept")).unwrap();

    let r = storage.delete_script("no-such-id");
    assert_eq!(r, Err(VaultError::NotFound));

    // the document is unchanged
    let scripts = storage.list_scripts().unwrap();
    assert_eq!(scripts.len(), 1);
    assert_eq!(scripts[0].name, "kept");
}

#[test]
fn test_delete_removes_exactly_one() {
    let mut storage = LocalStorage::new();
    storage.save_script(create_test_script("first")).unwrap();
    storage.save_script(create_test_script("second")).unwrap();
    storage.save_script(create_test_script("third")).unwrap();

    storage.delete_script("id-second").unwrap();

    let scripts = storage.list_scripts().unwrap();
    assert_eq!(scripts.len(), 2);
    assert_eq!(scripts[0].name, "first");
    assert_eq!(scripts[1].name, "third");
}

#[test]
fn test_load_by_name() {
    let mut storage = LocalStorage::new();

    let script = create_test_script("find-me");
    storage.save_script(script).unwrap();

    let loaded = storage.load_script_by_name("find-me").unwrap();
    assert_eq!(loaded.name, "find-me");
}

#[test]
fn test_load_missing_is_not_found() {
    let storage = LocalStorage::new();
    assert!(matches!(
        storage.load_script("missing"),
        Err(VaultError::NotFound)
    ));
    assert!(matches!(
        storage.load_script_by_name("missing"),
        Err(VaultError::NotFound)
    ));
}

#[test]
fn test_update_existing_script() {
    let mut storage = LocalStorage::new();

    storage.save_script(create_test_script("update-test")).unwrap();

    let mut updated = create_test_script("update-test");
    updated.content = "echo 'updated'".to_string();
    storage.save_script(updated).unwrap();

    let scripts = storage.list_scripts().unwrap();
    assert_eq!(scripts.len(), 1);

    let loaded = storage.load_script_by_name("update-test").unwrap();
    assert_eq!(loaded.content, "echo 'updated'");
}

#[test]
fn test_upsert_by_name_replaces_different_id() {
    let mut storage = LocalStorage::new();

    let mut first = create_test_script("shared-name");
    first.id = "id-one".to_string();
    let mut second = create_test_script("shared-name");
    second.id = "id-two".to_string();
    second.content = "echo 'latest'".to_string();

    storage.save_script(first).unwrap();
    storage.save_script(second).unwrap();

    let scripts = storage.list_scripts().unwrap();
    assert_eq!(scripts.len(), 1);
    assert_eq!(scripts[0].id, "id-two");
    assert_eq!(scripts[0].content, "echo 'latest'");
}

#[test]
fn test_health_check() {
    let storage = LocalStorage::new();

    assert!(storage.health_check().unwrap());
}

#[test]
fn test_metadata() {
    let mut storage = LocalStorage::new();

    storage.save_script(create_test_script("script1")).unwrap();
    storage.save_script(create_test_script("script2")).unwrap();

    let metadata = storage.get_metadata().unwrap();
    assert_eq!(metadata.total_scripts, 2);
    assert_eq!(metadata.backend_type, "local");
    assert_eq!(metadata.total_size_bytes, 20);
    assert!(metadata.last_sync.is_none());
}

#[test]
fn test_sync_defaults() {
    let storage = LocalStorage::new();
    assert!(storage.sync_push().unwrap().is_empty());
    assert!(storage.sync_pull().unwrap().is_empty());
    assert_eq!(
        storage.get_sync_status("anything").unwrap(),
        scriptvault::storage::SyncStatus::Synced
    );
    assert_eq!(storage.backend_type(), "local");
}

#[test]
fn test_document_round_trip() {
    let doc = vec![create_test_script("one"), create_test_script("two")];
    let storage = LocalStorage::from_scripts(doc);
    let back = storage.into_scripts();
    assert_eq!(back.len(), 2);
    assert_eq!(back[0].name, "one");
    assert_eq!(back[1].name, "two");
}

#[test]
fn test_default_storage_config() {
    let config = StorageConfig::default();
    match config {
        StorageConfig::Local { path } => {
            assert_eq!(path, ".scriptvault/vault");
        }
        _ => panic!("Default should be Local storage"),
    }
}

#[test]
fn test_factory_builds_local() {
    let config = StorageConfig::Local {
        path: "/tmp/vault".to_string(),
    };
    let backend = create_storage_backend(&config).unwrap();
    assert_eq!(backend.list_scripts().unwrap().len(), 0);
}

#[test]
fn test_factory_rejects_unimplemented_backends() {
    let s3 = StorageConfig::S3 {
        access_key: "k".to_string(),
        secret_key: "SECRET-REDACTED".to_string(),
        bucket: "b".to_string(),
        region: "us-east-1".to_string(),
    };
    assert!(matches!(
        create_storage_backend(&s3),
        Err(VaultError::Unimplemented)
    ));

    let azure = StorageConfig::Azure {
        account_name: "a".to_string(),
        account_key: "SECRET-REDACTED".to_string(),
        container: "c".to_string(),
    };
    assert!(matches!(
        create_storage_backend(&azure),
        Err(VaultError::Unimplemented)
    ));
}

#[test]
fn test_parse_backend_selector() {
    assert_eq!(parse_backend_selector("local"), Ok(BackendKind::Local));
    assert_eq!(parse_backend_selector("B2"), Ok(BackendKind::Backblaze));
    assert_eq!(parse_backend_selector("backblaze"), Ok(BackendKind::Backblaze));
    assert_eq!(parse_backend_selector("AWS"), Ok(BackendKind::S3));
    assert_eq!(parse_backend_selector("google"), Ok(BackendKind::Gcs));
    assert_eq!(parse_backend_selector("azure"), Ok(BackendKind::Azure));
    assert_eq!(
        parse_backend_selector("ftp"),
        Err(VaultError::ValidationFailure)
    );
}

#[test]
fn test_error_messages() {
    assert_eq!(VaultError::NotFound.message(), "not found");
    assert_eq!(VaultError::IoFailure.message(), "storage I/O failure");
    assert_eq!(
        VaultError::Unimplemented.message(),
        "storage backend not yet supported"
    );
    assert_eq!(
        VaultError::ExternalProcessFailure.message(),
        "failed to launch external process"
    );
    assert_eq!(VaultError::ValidationFailure.message(), "unrecognized selector");
}
