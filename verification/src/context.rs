//! Context detection and matching: normalizing git remote identities,
//! assembling provenance snapshots from detected facts, and the relevance
//! predicate between two snapshots.

use vstd::prelude::*;

use crate::script::ScriptContext;
use crate::text::{
    has_prefix, replace_char, replace_char_seq, starts_with, str_eq, strip_prefix_all,
    strip_prefix_repeated, strip_suffix_all, strip_suffix_repeated,
};

verus! {

/// A remote URL normalized to a repository identity: protocol prefixes
/// stripped, the SSH `host:path` separator turned into a slash, and the
/// `.git` suffix removed.
pub open spec fn normalized_git_url(u: Seq<char>) -> Seq<char> {
    strip_suffix_all(
        replace_char_seq(
            strip_prefix_all(strip_prefix_all(strip_prefix_all(u, "git@"@), "https://"@), "http://"@),
            ':',
            '/',
        ),
        ".git"@,
    )
}

/// Normalizes a git remote URL to a repository identity, for example
/// turning an SSH remote and an HTTPS remote of one repository into the
/// same string.
pub fn normalize_git_url(url: &str) -> (r: String)
    ensures
        r@ == normalized_git_url(url@),
{
    let s1 = strip_prefix_repeated(url, "git@");
    let s2 = strip_prefix_repeated(s1, "https://");
    let s3 = strip_prefix_repeated(s2, "http://");
    let s4 = replace_char(s3, ':', '/');
    let s5 = strip_suffix_repeated(s4.as_str(), ".git");
    s5.to_owned()
}

/// Two snapshots are relevant to each other when they share a non-empty
/// repository identity, or share a directory, or one directory is a plain
/// string prefix of the other.
pub open spec fn contexts_match_spec(a: ScriptContext, b: ScriptContext) -> bool {
    ||| (a.git_repo matches Some(g1) && b.git_repo matches Some(g2) && g1@ == g2@ && g1@.len()
        > 0)
    ||| (a.directory matches Some(d1) && b.directory matches Some(d2) && d1@ == d2@)
    ||| (a.directory matches Some(d1) && b.directory matches Some(d2) && (has_prefix(d1@, d2@)
        || has_prefix(d2@, d1@)))
}

/// Sharing a non-empty repository identity makes two snapshots relevant
/// to each other, whatever their directories; so does sharing a
/// directory, with or without a repository.
pub proof fn lemma_contexts_match_by_repo_or_directory(a: ScriptContext, b: ScriptContext)
    ensures
        (a.git_repo matches Some(g1) && b.git_repo matches Some(g2) && g1@ == g2@ && g1@.len()
            > 0) ==> contexts_match_spec(a, b),
        (a.directory matches Some(d1) && b.directory matches Some(d2) && d1@ == d2@)
            ==> contexts_match_spec(a, b),
{
}

/// The relevance predicate between two snapshots.
pub fn contexts_match(ctx1: &ScriptContext, ctx2: &ScriptContext) -> (r: bool)
    ensures
        r == contexts_match_spec(*ctx1, *ctx2),
{
    match (&ctx1.git_repo, &ctx2.git_repo) {
        (Some(g1), Some(g2)) => {
            if !g1.as_str().is_empty() && str_eq(g1.as_str(), g2.as_str()) {
                return true;
            }
        },
        _ => {},
    }
    match (&ctx1.directory, &ctx2.directory) {
        (Some(d1), Some(d2)) => {
            if str_eq(d1.as_str(), d2.as_str()) {
                return true;
            }
            if starts_with(d1.as_str(), d2.as_str()) || starts_with(d2.as_str(), d1.as_str()) {
                return true;
            }
        },
        _ => {},
    }
    false
}

/// The environment whitelist a snapshot carries: the shell, user, and OS
/// entries that were present, in that order — never the full environment.
pub open spec fn env_entries(
    shell: Option<Seq<char>>,
    user: Option<Seq<char>>,
    os: Option<Seq<char>>,
) -> Seq<(Seq<char>, Seq<char>)> {
    (match shell {
        Some(s) => seq![("SHELL"@, s)],
        None => Seq::empty(),
    }) + (match user {
        Some(u) => seq![("USER"@, u)],
        None => Seq::empty(),
    }) + (match os {
        Some(o) => seq![("OS"@, o)],
        None => Seq::empty(),
    })
}

/// The view of a captured environment, key and value character sequences.
pub open spec fn env_view(e: Seq<(String, String)>) -> Seq<(Seq<char>, Seq<char>)> {
    e.map_values(|p: (String, String)| (p.0@, p.1@))
}

/// Assembles a provenance snapshot from detected facts: the working
/// directory, the origin remote (normalized), the branch, and the
/// whitelisted environment variables.
pub fn build_context(
    directory: Option<String>,
    remote_url: Option<String>,
    git_branch: Option<String>,
    shell: Option<String>,
    user: Option<String>,
    os: Option<String>,
) -> (r: ScriptContext)
    ensures
        r.directory == directory,
        r.git_branch == git_branch,
        remote_url matches Some(u) ==> (r.git_repo matches Some(g) && g@ == normalized_git_url(
            u@,
        )),
        remote_url is None ==> r.git_repo is None,
        env_view(r.environment@) == env_entries(
            match shell {
                Some(s) => Some(s@),
                None => None,
            },
            match user {
                Some(u) => Some(u@),
                None => None,
            },
            match os {
                Some(o) => Some(o@),
                None => None,
            },
        ),
{
    let git_repo = match remote_url {
        Some(u) => Some(normalize_git_url(u.as_str())),
        None => None,
    };
    let ghost shell_v = match shell {
        Some(ref s) => Some(s@),
        None => None,
    };
    let ghost user_v = match user {
        Some(ref u) => Some(u@),
        None => None,
    };
    let ghost os_v = match os {
        Some(ref o) => Some(o@),
        None => None,
    };
    let mut environment: Vec<(String, String)> = Vec::new();
    if let Some(s) = shell {
        environment.push(("SHELL".to_owned(), s));
    }
    if let Some(u) = user {
        environment.push(("USER".to_owned(), u));
    }
    if let Some(o) = os {
        environment.push(("OS".to_owned(), o));
    }
    proof {
        assert(env_view(environment@) =~= env_entries(shell_v, user_v, os_v));
    }
    ScriptContext { directory, git_repo, git_branch, environment }
}

} // verus!
