//! The execution engine: safety gating and confirmation decisions, the
//! per-run state machine, interpreter resolution, metrics aggregation,
//! and filtering of the append-only history.
//!
//! Spawning the child process, prompting, and appending to the history
//! log are the caller's concern; every decision and every mutation of
//! recorded state is made here.

use vstd::prelude::*;

use crate::script::{metadata_wf, ExecutionRecord, ScriptContext, ScriptLanguage, ScriptMetadata};
use crate::support::new_id;
use crate::text::str_eq;

verus! {

/// How many history entries are shown by default.
pub const DEFAULT_HISTORY_LIMIT: usize = 20;

/// How many history entries the "recent" flag caps the display at.
pub const RECENT_HISTORY_LIMIT: usize = 10;

/// The phases one invocation of the engine moves through.
#[derive(Clone, Copy, PartialEq, Eq, Structural, Debug)]
pub enum RunPhase {
    Loaded,
    SafetyChecked,
    PreviewShown,
    Confirmed,
    DryRunStopped,
    Cancelled,
    Executing,
    Recorded,
}

/// The events that move the engine between phases.
#[derive(Clone, Copy, PartialEq, Eq, Structural, Debug)]
pub enum RunEvent {
    SafetyPassed,
    SafetyOverridden,
    SafetyDeclined,
    PreviewRendered,
    ConfirmAccepted,
    ConfirmDeclined,
    DryRunRequested,
    ProcessSpawned,
    OutcomeRecorded,
}

/// The per-invocation state machine: safety check, preview, confirmation
/// or dry-run stop or cancellation, execution, and recording. An event
/// that does not apply to the current phase leaves it unchanged.
pub open spec fn run_step_spec(p: RunPhase, e: RunEvent) -> RunPhase {
    match (p, e) {
        (RunPhase::Loaded, RunEvent::SafetyPassed) => RunPhase::SafetyChecked,
        (RunPhase::Loaded, RunEvent::SafetyOverridden) => RunPhase::SafetyChecked,
        (RunPhase::Loaded, RunEvent::SafetyDeclined) => RunPhase::Cancelled,
        (RunPhase::SafetyChecked, RunEvent::PreviewRendered) => RunPhase::PreviewShown,
        (RunPhase::PreviewShown, RunEvent::DryRunRequested) => RunPhase::DryRunStopped,
        (RunPhase::PreviewShown, RunEvent::ConfirmAccepted) => RunPhase::Confirmed,
        (RunPhase::PreviewShown, RunEvent::ConfirmDeclined) => RunPhase::Cancelled,
        (RunPhase::Confirmed, RunEvent::ProcessSpawned) => RunPhase::Executing,
        (RunPhase::Executing, RunEvent::OutcomeRecorded) => RunPhase::Recorded,
        (_, _) => p,
    }
}

/// One transition of the engine's state machine.
pub fn engine_step(phase: RunPhase, event: RunEvent) -> (r: RunPhase)
    ensures
        r == run_step_spec(phase, event),
{
    match (phase, event) {
        (RunPhase::Loaded, RunEvent::SafetyPassed) => RunPhase::SafetyChecked,
        (RunPhase::Loaded, RunEvent::SafetyOverridden) => RunPhase::SafetyChecked,
        (RunPhase::Loaded, RunEvent::SafetyDeclined) => RunPhase::Cancelled,
        (RunPhase::SafetyChecked, RunEvent::PreviewRendered) => RunPhase::PreviewShown,
        (RunPhase::PreviewShown, RunEvent::DryRunRequested) => RunPhase::DryRunStopped,
        (RunPhase::PreviewShown, RunEvent::ConfirmAccepted) => RunPhase::Confirmed,
        (RunPhase::PreviewShown, RunEvent::ConfirmDeclined) => RunPhase::Cancelled,
        (RunPhase::Confirmed, RunEvent::ProcessSpawned) => RunPhase::Executing,
        (RunPhase::Executing, RunEvent::OutcomeRecorded) => RunPhase::Recorded,
        (_, _) => phase,
    }
}

/// A run that was stopped, cancelled, or recorded stays that way: no
/// event moves the machine out of a terminal phase, so an abandoned run
/// can have no further effect.
pub proof fn lemma_terminal_phases_absorb(p: RunPhase, e: RunEvent)
    requires
        p == RunPhase::DryRunStopped || p == RunPhase::Cancelled || p == RunPhase::Recorded,
    ensures
        run_step_spec(p, e) == p,
{
}

/// What the caller must still ask before a run may proceed.
pub struct RunGate {
    /// The script body matched a dangerous pattern and an explicit
    /// affirmative confirmation is required.
    pub safety_prompt: bool,
    /// The configuration asks for one more confirmation before running.
    pub confirm_prompt: bool,
    /// The run stops after the preview, with no side effects.
    pub dry_run_stop: bool,
}

/// The gating decisions for one run: a dangerous script requires explicit
/// confirmation unless running unattended or dry; the configured
/// confirmation is likewise skipped when unattended or dry; a dry run
/// always stops after the preview.
pub fn plan_run_gate(safe: bool, ci_mode: bool, dry_run: bool, confirm_before_run: bool) -> (g:
    RunGate)
    ensures
        g.safety_prompt == (!safe && !ci_mode && !dry_run),
        g.confirm_prompt == (confirm_before_run && !ci_mode && !dry_run),
        g.dry_run_stop == dry_run,
{
    RunGate {
        safety_prompt: !safe && !ci_mode && !dry_run,
        confirm_prompt: confirm_before_run && !ci_mode && !dry_run,
        dry_run_stop: dry_run,
    }
}

/// The interpreter binary for a language; anything without a canonical
/// interpreter falls back to bash.
pub open spec fn interpreter_of(l: ScriptLanguage) -> Seq<char> {
    match l {
        ScriptLanguage::Bash => "bash"@,
        ScriptLanguage::Shell => "sh"@,
        ScriptLanguage::Python => "python3"@,
        ScriptLanguage::Ruby => "ruby"@,
        ScriptLanguage::Perl => "perl"@,
        ScriptLanguage::PowerShell => "powershell"@,
        _ => "bash"@,
    }
}

/// The interpreter binary and the argument prefix it needs before the
/// script path; only PowerShell takes a flag.
pub fn get_interpreter_command(language: &ScriptLanguage) -> (r: (&'static str, Vec<
    &'static str,
>))
    ensures
        r.0@ == interpreter_of(*language),
        *language == ScriptLanguage::PowerShell ==> (r.1@.len() == 1 && r.1@[0]@ == "-File"@),
        *language != ScriptLanguage::PowerShell ==> r.1@.len() == 0,
{
    match language {
        ScriptLanguage::Bash => ("bash", Vec::new()),
        ScriptLanguage::Shell => ("sh", Vec::new()),
        ScriptLanguage::Python => ("python3", Vec::new()),
        ScriptLanguage::Ruby => ("ruby", Vec::new()),
        ScriptLanguage::Perl => ("perl", Vec::new()),
        ScriptLanguage::PowerShell => {
            let mut flags: Vec<&'static str> = Vec::new();
            flags.push("-File");
            ("powershell", flags)
        },
        _ => ("bash", Vec::new()),
    }
}

/// The scratch-file extension for a language.
pub open spec fn extension_of(l: ScriptLanguage) -> Seq<char> {
    match l {
        ScriptLanguage::Bash => "sh"@,
        ScriptLanguage::Shell => "sh"@,
        ScriptLanguage::Python => "py"@,
        ScriptLanguage::JavaScript => "js"@,
        ScriptLanguage::Ruby => "rb"@,
        ScriptLanguage::Perl => "pl"@,
        ScriptLanguage::PowerShell => "ps1"@,
        ScriptLanguage::Batch => "bat"@,
        ScriptLanguage::Unknown => "sh"@,
    }
}

/// The scratch-file extension for a language.
pub fn get_extension(language: &ScriptLanguage) -> (r: &'static str)
    ensures
        r@ == extension_of(*language),
{
    match language {
        ScriptLanguage::Bash => "sh",
        ScriptLanguage::Shell => "sh",
        ScriptLanguage::Python => "py",
        ScriptLanguage::JavaScript => "js",
        ScriptLanguage::Ruby => "rb",
        ScriptLanguage::Perl => "pl",
        ScriptLanguage::PowerShell => "ps1",
        ScriptLanguage::Batch => "bat",
        ScriptLanguage::Unknown => "sh",
    }
}

/// An exit status without an explicit code is normalized to a fixed
/// nonzero code.
pub fn normalize_exit_code(code: Option<i32>) -> (r: i32)
    ensures
        code matches Some(c) ==> r == c,
        code is None ==> r == 1,
{
    match code {
        Some(c) => c,
        None => 1,
    }
}

/// Captured streams as the record stores them: standard output always,
/// standard error only when nonempty.
pub fn capture_streams(stdout: String, stderr: String) -> (r: (Option<String>, Option<String>))
    ensures
        r.0 == Some(stdout),
        stderr@.len() == 0 ==> r.1 is None,
        stderr@.len() > 0 ==> r.1 == Some(stderr),
{
    let stderr_empty = stderr.as_str().is_empty();
    if stderr_empty {
        (Some(stdout), None)
    } else {
        (Some(stdout), Some(stderr))
    }
}

/// The running mean after one more run of the given duration, from the
/// prior mean and the prior run count: the incremental update accumulates
/// integer rounding, by design.
pub open spec fn next_avg(avg: Option<u64>, prior_use: u64, duration_ms: u64) -> int {
    match avg {
        None => duration_ms as int,
        Some(a) => (a as int * prior_use as int + duration_ms as int) / (prior_use as int + 1),
    }
}

/// Folds one completed run into a script's metrics: the run counter and
/// the success or failure counter advance, the last-run facts are set,
/// and the average runtime is updated as a running mean.
pub fn record_run(
    md: &mut ScriptMetadata,
    exit_code: i32,
    duration_ms: u64,
    executed_at: i64,
    executed_by: String,
)
    requires
        metadata_wf(*old(md)),
        old(md).use_count < u64::MAX,
        old(md).avg_runtime_ms matches Some(a) ==> a as int * old(md).use_count as int
            + duration_ms as int <= u64::MAX,
    ensures
        final(md).use_count == old(md).use_count + 1,
        exit_code == 0 ==> final(md).success_count == old(md).success_count + 1
            && final(md).failure_count == old(md).failure_count,
        exit_code != 0 ==> final(md).failure_count == old(md).failure_count + 1
            && final(md).success_count == old(md).success_count,
        final(md).last_run == Some(executed_at),
        final(md).last_run_by == Some(executed_by),
        final(md).avg_runtime_ms matches Some(v) && v as int == next_avg(
            old(md).avg_runtime_ms,
            old(md).use_count,
            duration_ms,
        ),
        final(md).hash == old(md).hash,
        final(md).size_bytes == old(md).size_bytes,
        final(md).line_count == old(md).line_count,
        metadata_wf(*final(md)),
{
    md.use_count = md.use_count + 1;
    md.last_run = Some(executed_at);
    md.last_run_by = Some(executed_by);
    if exit_code == 0 {
        md.success_count = md.success_count + 1;
    } else {
        md.failure_count = md.failure_count + 1;
    }
    md.avg_runtime_ms = match md.avg_runtime_ms {
        Some(a) => Some((a * (md.use_count - 1) + duration_ms) / md.use_count),
        None => Some(duration_ms),
    };
}

/// The running mean law: after a first run of duration `d1` on fresh
/// metrics the average is exactly `d1`; after a second run of duration
/// `d2` it is exactly `(d1 + d2) / 2`, with integer division.
pub proof fn lemma_running_mean_two_runs(d1: u64, d2: u64)
    ensures
        next_avg(None, 0, d1) == d1 as int,
        next_avg(Some(d1), 1, d2) == (d1 as int + d2 as int) / 2,
{
}

/// A fresh, immutable record of one completed run, under a new opaque id.
pub fn new_execution_record(
    script_id: String,
    script_version: String,
    executed_by: String,
    executed_at: i64,
    exit_code: i32,
    duration_ms: u64,
    output: Option<String>,
    error: Option<String>,
    context: ScriptContext,
) -> (r: ExecutionRecord)
    ensures
        r.id@.len() == 36,
        r.script_id == script_id,
        r.script_version == script_version,
        r.executed_by == executed_by,
        r.executed_at == executed_at,
        r.exit_code == exit_code,
        r.duration_ms == duration_ms,
        r.output == output,
        r.error == error,
        r.context == context,
{
    ExecutionRecord {
        id: new_id(),
        script_id,
        script_version,
        executed_by,
        executed_at,
        exit_code,
        duration_ms,
        output,
        error,
        context,
    }
}

/// The view of an optional id filter.
pub open spec fn opt_str_view(o: Option<&str>) -> Option<Seq<char>> {
    match o {
        Some(s) => Some(s@),
        None => None,
    }
}

/// A record passes the history filters: the script id matches when one is
/// given, and the run failed when only failures are asked for.
pub open spec fn record_matches(
    r: ExecutionRecord,
    script_id: Option<Seq<char>>,
    failed_only: bool,
) -> bool {
    &&& (script_id matches Some(sid) ==> r.script_id@ == sid)
    &&& (failed_only ==> r.exit_code != 0)
}

/// The positions of all history records that pass the filters, in order.
pub fn filter_history(
    records: &Vec<ExecutionRecord>,
    script_id: Option<&str>,
    failed_only: bool,
) -> (r: Vec<usize>)
    ensures
        forall|k: int|
            0 <= k < r@.len() ==> r@[k] < records@.len() && record_matches(
                records@[r@[k] as int],
                opt_str_view(script_id),
                failed_only,
            ),
        forall|k1: int, k2: int| 0 <= k1 < k2 < r@.len() ==> r@[k1] < r@[k2],
        forall|i: int|
            0 <= i < records@.len() && record_matches(
                records@[i],
                opt_str_view(script_id),
                failed_only,
            ) ==> exists|k: int| 0 <= k < r@.len() && r@[k] == i,
{
    let mut out: Vec<usize> = Vec::new();
    let mut i: usize = 0;
    while i < records.len()
        invariant
            0 <= i <= records@.len(),
            forall|k: int|
                0 <= k < out@.len() ==> out@[k] < i && record_matches(
                    records@[out@[k] as int],
                    opt_str_view(script_id),
                    failed_only,
                ),
            forall|k1: int, k2: int| 0 <= k1 < k2 < out@.len() ==> out@[k1] < out@[k2],
            forall|j: int|
                0 <= j < i && record_matches(
                    records@[j],
                    opt_str_view(script_id),
                    failed_only,
                ) ==> exists|k: int| 0 <= k < out@.len() && out@[k] == j,
        decreases records@.len() - i,
    {
        let id_ok = match script_id {
            Some(sid) => str_eq(records[i].script_id.as_str(), sid),
            None => true,
        };
        let fail_ok = !failed_only || records[i].exit_code != 0;
        let ghost sidv = opt_str_view(script_id);
        if id_ok && fail_ok {
            let ghost pre = out@;
            out.push(i);
            proof {
                assert forall|j: int|
                    0 <= j < i + 1 && record_matches(
                        records@[j],
                        sidv,
                        failed_only,
                    ) implies exists|k: int| 0 <= k < out@.len() && out@[k] == j by {
                    if j == i {
                        assert(out@[pre.len() as int] == i as usize);
                    } else {
                        let k = choose|k: int| 0 <= k < pre.len() && pre[k] == j;
                        assert(out@[k] == j);
                    }
                }
            }
        } else {
            proof {
                assert(!record_matches(records@[i as int], sidv, failed_only));
            }
        }
        i += 1;
    }
    out
}

/// How many history entries to show: ten under the "recent" flag, else
/// the default cap of twenty.
pub fn history_limit(recent: bool) -> (r: usize)
    ensures
        recent ==> r == RECENT_HISTORY_LIMIT,
        !recent ==> r == DEFAULT_HISTORY_LIMIT,
{
    if recent {
        RECENT_HISTORY_LIMIT
    } else {
        DEFAULT_HISTORY_LIMIT
    }
}

/// At most `n` of the given positions, newest (last) first.
pub fn last_n_reversed(v: &Vec<usize>, n: usize) -> (r: Vec<usize>)
    ensures
        r@.len() == (if n as int <= v@.len() {
            n as int
        } else {
            v@.len() as int
        }),
        forall|k: int| 0 <= k < r@.len() ==> r@[k] == v@[v@.len() - 1 - k],
{
    let mut out: Vec<usize> = Vec::new();
    let mut k: usize = 0;
    while k < n && k < v.len()
        invariant
            0 <= k <= v@.len(),
            k <= n,
            out@.len() == k,
            forall|m: int| 0 <= m < k ==> out@[m] == v@[v@.len() - 1 - m],
        decreases v@.len() - k,
    {
        out.push(v[v.len() - 1 - k]);
        k += 1;
    }
    out
}

} // verus!
