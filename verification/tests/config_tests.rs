use scriptvault::config::Config;

#[test]
fn test_default_config() {
    let config = Config::default();

    assert!(config.auto_sync);
    assert!(config.confirm_before_run);
    assert_eq!(config.default_visibility, "private");
    assert!(config.auth_token.is_none());
    assert!(config.user_id.is_none());
}

#[test]
fn test_is_authenticated_false() {
    let config = Config::default();
    assert!(!config.is_authenticated());
}

#[test]
fn test_is_authenticated_true() {
    let mut config = Config::default();
    config.set_auth(
        "token123".to_string(),
        "user123".to_string(),
        "TestUser".to_string(),
    );

    assert!(config.is_authenticated());
    assert_eq!(config.auth_token, Some("token123".to_string()));
    assert_eq!(config.user_id, Some("user123".to_string()));
    assert_eq!(config.username, Some("TestUser".to_string()));
}

#[test]
fn test_clear_auth() {
    let mut config = Config::default();
    config.set_auth(
        "token123".to_string(),
        "user123".to_string(),
        "TestUser".to_string(),
    );

    assert!(config.is_authenticated());

    config.clear_auth();

    assert!(!config.is_authenticated());
    assert!(config.auth_token.is_none());
    assert!(config.user_id.is_none());
    assert!(config.username.is_none());
}

#[test]
fn test_storage_paths() {
    assert_eq!(
        Config::scripts_path("/home/alex/.scriptvault"),
        "/home/alex/.scriptvault/vault/scripts.json"
    );
    assert_eq!(
        Config::history_path("/home/alex/.scriptvault"),
        "/home/alex/.scriptvault/history.jsonl"
    );
    assert_eq!(
        Config::default_vault_path("/home/alex/.scriptvault"),
        "/home/alex/.scriptvault/vault"
    );
}
