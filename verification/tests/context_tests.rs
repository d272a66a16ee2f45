use scriptvault::context::{build_context, contexts_match, normalize_git_url};
use scriptvault::script::ScriptContext;

fn ctx(directory: Option<&str>, git_repo: Option<&str>, git_branch: Option<&str>) -> ScriptContext {
    ScriptContext {
        directory: directory.map(|s| s.to_string()),
        git_repo: git_repo.map(|s| s.to_string()),
        git_branch: git_branch.map(|s| s.to_string()),
        environment: Vec::new(),
    }
}

#[test]
fn test_normalize_git_url_https() {
    let url = normalize_git_url("https://github.com/user/repo.git");
    assert_eq!(url, "github.com/user/repo");
}

#[test]
fn test_normalize_git_url_ssh() {
    let url = normalize_git_url("git@github.com:user/repo.git");
    assert_eq!(url, "github.com/user/repo");
}

#[test]
fn test_normalize_git_url_no_git_extension() {
    let url = normalize_git_url("https://github.com/user/repo");
    assert_eq!(url, "github.com/user/repo");
}

#[test]
fn test_normalize_git_url_http() {
    let url = normalize_git_url("http://gitlab.com/team/tool.git");
    assert_eq!(url, "gitlab.com/team/tool");
}

#[test]
fn test_contexts_match_same_git_repo() {
    let ctx1 = ctx(
        Some("/home/user/project"),
        Some("github.com/user/repo"),
        Some("main"),
    );
    let ctx2 = ctx(
        Some("/home/user/project2"),
        Some("github.com/user/repo"),
        Some("develop"),
    );

    assert!(contexts_match(&ctx1, &ctx2));
}

#[test]
fn test_contexts_match_same_directory() {
    let ctx1 = ctx(Some("/home/user/project"), None, None);
    let ctx2 = ctx(Some("/home/user/project"), None, None);

    assert!(contexts_match(&ctx1, &ctx2));
}

#[test]
fn test_contexts_no_match() {
    let ctx1 = ctx(
        Some("/home/user/project1"),
        Some("github.com/user/repo1"),
        Some("main"),
    );
    let ctx2 = ctx(
        Some("/home/user/project2"),
        Some("github.com/user/repo2"),
        Some("main"),
    );

    assert!(!contexts_match(&ctx1, &ctx2));
}

#[test]
fn test_contexts_match_parent_directory() {
    let ctx1 = ctx(Some("/home/user/project"), None, None);
    let ctx2 = ctx(Some("/home/user/project/subdir"), None, None);

    assert!(contexts_match(&ctx1, &ctx2));
}

#[test]
fn test_contexts_empty_repo_identity_does_not_match() {
    // an empty repository identity is no shared identity
    let ctx1 = ctx(None, Some(""), None);
    let ctx2 = ctx(None, Some(""), None);
    assert!(!contexts_match(&ctx1, &ctx2));

    // but a shared directory still matches, repository or not
    let ctx3 = ctx(Some("/srv/app"), Some(""), None);
    let ctx4 = ctx(Some("/srv/app"), Some(""), None);
    assert!(contexts_match(&ctx3, &ctx4));
}

#[test]
fn test_build_context_normalizes_remote() {
    let c = build_context(
        Some("/work/repo".to_string()),
        Some("git@github.com:user/repo.git".to_string()),
        Some("main".to_string()),
        Some("/bin/zsh".to_string()),
        Some("alex".to_string()),
        None,
    );
    assert_eq!(c.directory.as_deref(), Some("/work/repo"));
    assert_eq!(c.git_repo.as_deref(), Some("github.com/user/repo"));
    assert_eq!(c.git_branch.as_deref(), Some("main"));
    assert_eq!(
        c.environment,
        vec![
            ("SHELL".to_string(), "/bin/zsh".to_string()),
            ("USER".to_string(), "alex".to_string()),
        ]
    );
}

#[test]
fn test_build_context_without_git() {
    let c = build_context(Some("/tmp".to_string()), None, None, None, None, None);
    assert!(c.git_repo.is_none());
    assert!(c.git_branch.is_none());
    assert!(c.environment.is_empty());
}
