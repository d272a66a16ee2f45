//! The tool's configuration: storage paths, authentication state, and
//! run-time preferences. Loaded once per invocation by the caller and
//! passed explicitly into each component.

use vstd::prelude::*;

use vstd::string::StringExecFns;

verus! {

/// Configuration values. Paths are plain strings; the caller resolves the
/// data directory (normally under the user's home) and reads or writes the
/// persisted form.
pub struct Config {
    pub api_endpoint: String,
    pub vault_path: String,
    pub auth_token: Option<String>,
    pub user_id: Option<String>,
    pub username: Option<String>,
    pub team_id: Option<String>,
    pub auto_sync: bool,
    pub confirm_before_run: bool,
    pub default_visibility: String,
}

impl Default for Config {
    /// The configuration a fresh installation starts from: no
    /// authentication, confirmation before every run, private visibility.
    fn default() -> (r: Self)
        ensures
            r.api_endpoint@ == "https://api.scriptvault.dev"@,
            r.vault_path@ == ".scriptvault/vault"@,
            r.auth_token is None,
            r.user_id is None,
            r.username is None,
            r.team_id is None,
            r.auto_sync == true,
            r.confirm_before_run == true,
            r.default_visibility@ == "private"@,
    {
        Config {
            api_endpoint: "https://api.scriptvault.dev".to_owned(),
            vault_path: ".scriptvault/vault".to_owned(),
            auth_token: None,
            user_id: None,
            username: None,
            team_id: None,
            auto_sync: true,
            confirm_before_run: true,
            default_visibility: "private".to_owned(),
        }
    }
}

impl Config {
    /// The scripts document inside a data directory.
    pub fn scripts_path(data_dir: &str) -> (r: String)
        ensures
            r@ == data_dir@ + "/vault/scripts.json"@,
    {
        let mut r = data_dir.to_owned();
        r.append("/vault/scripts.json");
        r
    }

    /// The history log inside a data directory.
    pub fn history_path(data_dir: &str) -> (r: String)
        ensures
            r@ == data_dir@ + "/history.jsonl"@,
    {
        let mut r = data_dir.to_owned();
        r.append("/history.jsonl");
        r
    }

    /// The default vault directory inside a data directory.
    pub fn default_vault_path(data_dir: &str) -> (r: String)
        ensures
            r@ == data_dir@ + "/vault"@,
    {
        let mut r = data_dir.to_owned();
        r.append("/vault");
        r
    }

    /// Whether both an auth token and a user id are present.
    pub fn is_authenticated(&self) -> (r: bool)
        ensures
            r == (self.auth_token is Some && self.user_id is Some),
    {
        self.auth_token.is_some() && self.user_id.is_some()
    }

    /// Records an authentication: token, user id, and username.
    pub fn set_auth(&mut self, token: String, user_id: String, username: String)
        ensures
            final(self).auth_token == Some(token),
            final(self).user_id == Some(user_id),
            final(self).username == Some(username),
            final(self).team_id == old(self).team_id,
            final(self).api_endpoint == old(self).api_endpoint,
            final(self).vault_path == old(self).vault_path,
            final(self).auto_sync == old(self).auto_sync,
            final(self).confirm_before_run == old(self).confirm_before_run,
            final(self).default_visibility == old(self).default_visibility,
    {
        self.auth_token = Some(token);
        self.user_id = Some(user_id);
        self.username = Some(username);
    }

    /// Forgets every trace of an authentication.
    pub fn clear_auth(&mut self)
        ensures
            final(self).auth_token is None,
            final(self).user_id is None,
            final(self).username is None,
            final(self).team_id is None,
            final(self).api_endpoint == old(self).api_endpoint,
            final(self).vault_path == old(self).vault_path,
            final(self).auto_sync == old(self).auto_sync,
            final(self).confirm_before_run == old(self).confirm_before_run,
            final(self).default_visibility == old(self).default_visibility,
    {
        self.auth_token = None;
        self.user_id = None;
        self.username = None;
        self.team_id = None;
    }
}

} // verus!
