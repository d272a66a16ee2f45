//! The script catalog record and its embedded metrics and context.

use vstd::prelude::*;

use crate::support::{new_id, now_millis, sha256_bytes, sha256_of};
use crate::text::{
    contains_seq, contains_str, hex_of_bytes, line_count, line_count_seq, lower_of, lowercase,
    str_eq, to_hex,
};
use vstd::string::StringSliceAdditionalSpecFns;

verus! {

/// The language a cataloged script is written in, inferred from its file
/// extension at save time.
#[derive(Clone, Copy, PartialEq, Eq, Structural, Debug)]
pub enum ScriptLanguage {
    Bash,
    Shell,
    Python,
    JavaScript,
    Ruby,
    Perl,
    PowerShell,
    Batch,
    Unknown,
}

/// Who may see a script; only `Private` is functionally honored today.
#[derive(Clone, Copy, PartialEq, Eq, Structural, Debug)]
pub enum Visibility {
    Private,
    Team,
    Public,
}

/// Provenance captured at the moment of save or execution: directory,
/// normalized repository identity, branch, and a small whitelist of
/// environment variables — never the full environment.
pub struct ScriptContext {
    pub directory: Option<String>,
    pub git_repo: Option<String>,
    pub git_branch: Option<String>,
    pub environment: Vec<(String, String)>,
}

/// Rolling usage metrics, mutated only by the execution engine.
pub struct ScriptMetadata {
    pub hash: String,
    pub size_bytes: usize,
    pub line_count: usize,
    pub use_count: u64,
    pub success_count: u64,
    pub failure_count: u64,
    pub last_run: Option<i64>,
    pub last_run_by: Option<String>,
    pub avg_runtime_ms: Option<u64>,
}

/// A catalog entry. `id` is the storage-level primary key; `name` is the
/// effective key for user-facing upsert. Timestamps are milliseconds since
/// the Unix epoch.
pub struct Script {
    pub id: String,
    pub name: String,
    pub content: String,
    pub version: String,
    pub language: ScriptLanguage,
    pub tags: Vec<String>,
    pub description: Option<String>,
    pub author: String,
    pub created_at: i64,
    pub updated_at: i64,
    pub context: ScriptContext,
    pub metadata: ScriptMetadata,
    pub visibility: Visibility,
}

/// An immutable, append-only fact about one completed run.
pub struct ExecutionRecord {
    pub id: String,
    pub script_id: String,
    pub script_version: String,
    pub executed_by: String,
    pub executed_at: i64,
    pub exit_code: i32,
    pub duration_ms: u64,
    pub output: Option<String>,
    pub error: Option<String>,
    pub context: ScriptContext,
}

/// The metrics invariant: every recorded run is either a success or a
/// failure, and an average runtime exists only once a run was recorded.
pub open spec fn metadata_wf(m: ScriptMetadata) -> bool {
    &&& m.use_count == m.success_count + m.failure_count
    &&& m.avg_runtime_ms is Some ==> m.use_count >= 1
}

/// The language inferred from an already lower-cased file extension.
pub open spec fn language_of(e: Seq<char>) -> ScriptLanguage {
    if e == "sh"@ {
        ScriptLanguage::Shell
    } else if e == "bash"@ {
        ScriptLanguage::Bash
    } else if e == "py"@ {
        ScriptLanguage::Python
    } else if e == "js"@ {
        ScriptLanguage::JavaScript
    } else if e == "rb"@ {
        ScriptLanguage::Ruby
    } else if e == "pl"@ {
        ScriptLanguage::Perl
    } else if e == "ps1"@ {
        ScriptLanguage::PowerShell
    } else if e == "bat"@ || e == "cmd"@ {
        ScriptLanguage::Batch
    } else {
        ScriptLanguage::Unknown
    }
}

/// The display label of a language.
pub open spec fn language_label(l: ScriptLanguage) -> Seq<char> {
    match l {
        ScriptLanguage::Bash => "bash"@,
        ScriptLanguage::Shell => "shell"@,
        ScriptLanguage::Python => "python"@,
        ScriptLanguage::JavaScript => "javascript"@,
        ScriptLanguage::Ruby => "ruby"@,
        ScriptLanguage::Perl => "perl"@,
        ScriptLanguage::PowerShell => "powershell"@,
        ScriptLanguage::Batch => "batch"@,
        ScriptLanguage::Unknown => "unknown"@,
    }
}

/// The shebang line for languages that have one.
pub open spec fn shebang_of(l: ScriptLanguage) -> Option<Seq<char>> {
    match l {
        ScriptLanguage::Bash => Some("#!/usr/bin/env bash"@),
        ScriptLanguage::Shell => Some("#!/bin/sh"@),
        ScriptLanguage::Python => Some("#!/usr/bin/env python3"@),
        ScriptLanguage::Ruby => Some("#!/usr/bin/env ruby"@),
        ScriptLanguage::Perl => Some("#!/usr/bin/env perl"@),
        _ => None,
    }
}

/// Content is safe when it contains none of the fixed dangerous patterns:
/// destructive filesystem wipes, raw device writes, and the classic fork
/// bomb.
pub open spec fn content_is_safe(c: Seq<char>) -> bool {
    &&& !contains_seq(c, "rm -rf /"@)
    &&& !contains_seq(c, "rm -rf /*"@)
    &&& !contains_seq(c, "mkfs"@)
    &&& !contains_seq(c, "dd if="@)
    &&& !contains_seq(c, "> /dev/sda"@)
    &&& !contains_seq(c, ":(){ :|:& };:"@)
}

impl ScriptLanguage {
    /// The language for a file extension that is already lower-case.
    pub fn for_lowered_extension(ext: &str) -> (r: ScriptLanguage)
        ensures
            r == language_of(ext@),
    {
        if str_eq(ext, "sh") {
            ScriptLanguage::Shell
        } else if str_eq(ext, "bash") {
            ScriptLanguage::Bash
        } else if str_eq(ext, "py") {
            ScriptLanguage::Python
        } else if str_eq(ext, "js") {
            ScriptLanguage::JavaScript
        } else if str_eq(ext, "rb") {
            ScriptLanguage::Ruby
        } else if str_eq(ext, "pl") {
            ScriptLanguage::Perl
        } else if str_eq(ext, "ps1") {
            ScriptLanguage::PowerShell
        } else if str_eq(ext, "bat") || str_eq(ext, "cmd") {
            ScriptLanguage::Batch
        } else {
            ScriptLanguage::Unknown
        }
    }

    /// The language for a file extension, compared case-insensitively.
    pub fn from_extension(ext: &str) -> (r: ScriptLanguage)
        ensures
            r == language_of(lower_of(ext@)),
    {
        let lowered = lowercase(ext);
        ScriptLanguage::for_lowered_extension(lowered.as_str())
    }

    /// The display label of this language.
    pub fn to_string(&self) -> (r: &'static str)
        ensures
            r@ == language_label(*self),
    {
        match self {
            ScriptLanguage::Bash => "bash",
            ScriptLanguage::Shell => "shell",
            ScriptLanguage::Python => "python",
            ScriptLanguage::JavaScript => "javascript",
            ScriptLanguage::Ruby => "ruby",
            ScriptLanguage::Perl => "perl",
            ScriptLanguage::PowerShell => "powershell",
            ScriptLanguage::Batch => "batch",
            ScriptLanguage::Unknown => "unknown",
        }
    }

    /// The shebang line for this language, if it has one.
    pub fn get_shebang(&self) -> (r: Option<&'static str>)
        ensures
            r is Some <==> shebang_of(*self) is Some,
            r matches Some(s) ==> shebang_of(*self) matches Some(v) && s@ == v,
    {
        match self {
            ScriptLanguage::Bash => Some("#!/usr/bin/env bash"),
            ScriptLanguage::Shell => Some("#!/bin/sh"),
            ScriptLanguage::Python => Some("#!/usr/bin/env python3"),
            ScriptLanguage::Ruby => Some("#!/usr/bin/env ruby"),
            ScriptLanguage::Perl => Some("#!/usr/bin/env perl"),
            _ => None,
        }
    }
}

impl ScriptContext {
    /// A snapshot with nothing captured.
    pub fn empty() -> (r: ScriptContext)
        ensures
            r.directory is None,
            r.git_repo is None,
            r.git_branch is None,
            r.environment@.len() == 0,
    {
        ScriptContext {
            directory: None,
            git_repo: None,
            git_branch: None,
            environment: Vec::new(),
        }
    }
}

impl Script {
    /// A fresh catalog entry for the given name, content, and language:
    /// new opaque id, fixed initial version label, zeroed metrics with the
    /// content's digest, size, and line count, and an empty context.
    pub fn new(name: String, content: String, language: ScriptLanguage) -> (r: Script)
        ensures
            r.id@.len() == 36,
            r.name == name,
            r.content == content,
            r.version@ == "v1.0.0"@,
            r.language == language,
            r.tags@.len() == 0,
            r.description is None,
            r.author@ == "local"@,
            r.created_at == r.updated_at,
            r.context.directory is None,
            r.context.git_repo is None,
            r.context.git_branch is None,
            r.context.environment@.len() == 0,
            r.metadata.hash@ == hex_of_bytes(sha256_of(content@)),
            r.metadata.size_bytes == vstd::utf8::encode_utf8(content@).len() as usize,
            r.metadata.line_count == line_count_seq(content@),
            r.metadata.use_count == 0,
            r.metadata.success_count == 0,
            r.metadata.failure_count == 0,
            r.metadata.last_run is None,
            r.metadata.last_run_by is None,
            r.metadata.avg_runtime_ms is None,
            r.visibility == Visibility::Private,
            metadata_wf(r.metadata),
    {
        let digest = sha256_bytes(content.as_str());
        let hash = to_hex(&digest);
        let lines = line_count(content.as_str());
        let content_str = content.as_str();
        let size_bytes = content_str.len();
        proof {
            assert(content_str.spec_bytes() == vstd::utf8::encode_utf8(content@));
        }
        let ts = now_millis();
        Script {
            id: new_id(),
            name,
            content,
            version: "v1.0.0".to_owned(),
            language,
            tags: Vec::new(),
            description: None,
            author: "local".to_owned(),
            created_at: ts,
            updated_at: ts,
            context: ScriptContext::empty(),
            metadata: ScriptMetadata {
                hash,
                size_bytes,
                line_count: lines,
                use_count: 0,
                success_count: 0,
                failure_count: 0,
                last_run: None,
                last_run_by: None,
                avg_runtime_ms: None,
            },
            visibility: Visibility::Private,
        }
    }

    /// The share of recorded runs that succeeded, as a whole-number
    /// percentage; zero while no run was recorded.
    pub fn success_rate(&self) -> (r: u64)
        ensures
            self.metadata.success_count + self.metadata.failure_count == 0 ==> r == 0,
            self.metadata.success_count + self.metadata.failure_count > 0 ==> r as int == (
            self.metadata.success_count as int * 100) / (self.metadata.success_count as int
                + self.metadata.failure_count as int),
    {
        let s = self.metadata.success_count;
        let f = self.metadata.failure_count;
        let total: u128 = s as u128 + f as u128;
        if total == 0 {
            0
        } else {
            let rate: u128 = (s as u128 * 100) / total;
            proof {
                assert((s as int * 100) / (s as int + f as int) <= 100) by (nonlinear_arith)
                    requires
                        s as int + f as int > 0,
                ;
            }
            rate as u64
        }
    }

    /// Whether the script body contains none of the dangerous patterns.
    pub fn is_safe(&self) -> (r: bool)
        ensures
            r == content_is_safe(self.content@),
    {
        let c = self.content.as_str();
        !(contains_str(c, "rm -rf /") || contains_str(c, "rm -rf /*") || contains_str(c, "mkfs")
            || contains_str(c, "dd if=") || contains_str(c, "> /dev/sda") || contains_str(
            c,
            ":(){ :|:& };:",
        ))
    }
}

impl ExecutionRecord {
    /// Whether the recorded run exited cleanly.
    pub fn was_successful(&self) -> (r: bool)
        ensures
            r == (self.exit_code == 0),
    {
        self.exit_code == 0
    }
}

} // verus!
