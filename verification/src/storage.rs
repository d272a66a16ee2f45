//! The storage backend contract: the capability set any persistence
//! mechanism must expose, a configuration vocabulary for selecting one,
//! and the factory that builds the one implemented backend.

use vstd::prelude::*;

use crate::errors::VaultError;
use crate::script::Script;
use crate::text::{lower_of, lowercase, str_eq};

verus! {

/// Configuration for the storage backends. Only the local filesystem
/// variant is implemented; the four remote kinds are named extension
/// points that fail fast at selection time.
pub enum StorageConfig {
    Local { path: String },
    Backblaze { key_id: String, application_key: String, bucket_name: String, endpoint: Option<String> },
    S3 { access_key: String, secret_key: String, bucket: String, region: String },
    Gcs { project_id: String, bucket: String, credentials_path: String },
    Azure { account_name: String, account_key: String, container: String },
}

impl Default for StorageConfig {
    /// Local storage under the default vault path.
    fn default() -> (r: Self)
        ensures
            r matches StorageConfig::Local { path } && path@ == ".scriptvault/vault"@,
    {
        StorageConfig::Local { path: ".scriptvault/vault".to_owned() }
    }
}

/// The closed set of backend kinds a selector string can name.
#[derive(Clone, Copy, PartialEq, Eq, Structural, Debug)]
pub enum BackendKind {
    Local,
    Backblaze,
    S3,
    Gcs,
    Azure,
}

/// Aggregate view of a backend's holdings.
pub struct StorageMetadata {
    pub total_scripts: usize,
    pub total_size_bytes: u64,
    pub last_sync: Option<i64>,
    pub backend_type: String,
}

/// Reconciliation state of one script against a remote; the vocabulary any
/// future remote backend must honor. A backend without a remote always
/// reports `Synced`.
#[derive(Clone, Copy, PartialEq, Eq, Structural, Debug)]
pub enum SyncStatus {
    Synced,
    LocalNewer,
    RemoteNewer,
    LocalOnly,
    RemoteOnly,
    Conflict,
}

/// Keeps the entries whose id differs from the given one.
pub open spec fn keeps_other_id(id: Seq<char>) -> spec_fn(Script) -> bool {
    |t: Script| t.id@ != id
}

/// Keeps the entries matching neither the id nor the name of `s`.
pub open spec fn keeps_other_keys(s: Script) -> spec_fn(Script) -> bool {
    |t: Script| t.id@ != s.id@ && t.name@ != s.name@
}

/// Keeps the entries carrying the given name.
pub open spec fn carries_name(name: Seq<char>) -> spec_fn(Script) -> bool {
    |t: Script| t.name@ == name
}

/// The document after an upsert: every prior entry matching the incoming
/// script's id or name is removed, then the script is appended.
pub open spec fn upsert_doc(doc: Seq<Script>, s: Script) -> Seq<Script> {
    doc.filter(keeps_other_keys(s)).push(s)
}

/// The document after a delete: every entry with the given id is removed.
pub open spec fn remove_doc(doc: Seq<Script>, id: Seq<char>) -> Seq<Script> {
    doc.filter(keeps_other_id(id))
}

/// Some entry of the document has the given id.
pub open spec fn has_id(doc: Seq<Script>, id: Seq<char>) -> bool {
    exists|i: int| 0 <= i < doc.len() && doc[i].id@ == id
}

/// Some entry of the document has the given name.
pub open spec fn has_name(doc: Seq<Script>, name: Seq<char>) -> bool {
    exists|i: int| 0 <= i < doc.len() && doc[i].name@ == name
}

/// Position `i` holds the first entry with the given id.
pub open spec fn first_match_by_id(doc: Seq<Script>, id: Seq<char>, i: int) -> bool {
    &&& 0 <= i < doc.len()
    &&& doc[i].id@ == id
    &&& forall|j: int| 0 <= j < i ==> doc[j].id@ != id
}

/// Position `i` holds the first entry with the given name.
pub open spec fn first_match_by_name(doc: Seq<Script>, name: Seq<char>, i: int) -> bool {
    &&& 0 <= i < doc.len()
    &&& doc[i].name@ == name
    &&& forall|j: int| 0 <= j < i ==> doc[j].name@ != name
}

/// The sum of the recorded sizes of all entries.
pub open spec fn size_sum(doc: Seq<Script>) -> int
    decreases doc.len(),
{
    if doc.len() == 0 {
        0
    } else {
        size_sum(doc.drop_last()) + doc.last().metadata.size_bytes
    }
}

/// The size sum as a `u64` reports it, saturating at the maximum.
pub open spec fn clamped_size_sum(doc: Seq<Script>) -> int {
    if size_sum(doc) <= u64::MAX {
        size_sum(doc)
    } else {
        u64::MAX as int
    }
}

/// A well-formed document: ids and names are unique across the active set.
pub open spec fn doc_wf(doc: Seq<Script>) -> bool {
    forall|i: int, j: int|
        0 <= i < j < doc.len() ==> doc[i].id@ != doc[j].id@ && doc[i].name@ != doc[j].name@
}

pub(crate) proof fn lemma_filter_push<A>(s: Seq<A>, pred: spec_fn(A) -> bool, x: A)
    ensures
        s.push(x).filter(pred) == (if pred(x) {
            s.filter(pred).push(x)
        } else {
            s.filter(pred)
        }),
{
    reveal(Seq::filter);
    assert(s.push(x).drop_last() =~= s);
    assert(s.push(x).last() == x);
}

proof fn lemma_filter_all<A>(s: Seq<A>, pred: spec_fn(A) -> bool)
    requires
        forall|i: int| 0 <= i < s.len() ==> pred(s[i]),
    ensures
        s.filter(pred) =~= s,
    decreases s.len(),
{
    reveal(Seq::filter);
    if s.len() > 0 {
        assert forall|i: int| 0 <= i < s.drop_last().len() implies pred(s.drop_last()[i]) by {
            assert(s.drop_last()[i] == s[i]);
        }
        lemma_filter_all(s.drop_last(), pred);
    }
}

proof fn lemma_filter_none<A>(s: Seq<A>, pred: spec_fn(A) -> bool)
    requires
        forall|i: int| 0 <= i < s.len() ==> !pred(s[i]),
    ensures
        s.filter(pred) =~= Seq::<A>::empty(),
    decreases s.len(),
{
    reveal(Seq::filter);
    if s.len() > 0 {
        assert forall|i: int| 0 <= i < s.drop_last().len() implies !pred(s.drop_last()[i]) by {
            assert(s.drop_last()[i] == s[i]);
        }
        lemma_filter_none(s.drop_last(), pred);
    }
}

proof fn lemma_filter_preserves_prop<A>(s: Seq<A>, pred: spec_fn(A) -> bool, prop: spec_fn(A) -> bool)
    requires
        forall|i: int| 0 <= i < s.len() ==> prop(s[i]),
    ensures
        forall|k: int| 0 <= k < s.filter(pred).len() ==> prop(#[trigger] s.filter(pred)[k]),
    decreases s.len(),
{
    reveal(Seq::filter);
    if s.len() > 0 {
        let dl = s.drop_last();
        assert forall|i: int| 0 <= i < dl.len() implies prop(dl[i]) by {
            assert(dl[i] == s[i]);
        }
        lemma_filter_preserves_prop(dl, pred, prop);
        if pred(s.last()) {
            assert forall|k: int| 0 <= k < s.filter(pred).len() implies prop(
                #[trigger] s.filter(pred)[k],
            ) by {
                if k < dl.filter(pred).len() {
                    assert(s.filter(pred)[k] == dl.filter(pred)[k]);
                } else {
                    assert(s.filter(pred)[k] == s.last());
                }
            }
        }
    }
}

proof fn lemma_filter_preserves_wf(doc: Seq<Script>, pred: spec_fn(Script) -> bool)
    requires
        doc_wf(doc),
    ensures
        doc_wf(doc.filter(pred)),
    decreases doc.len(),
{
    reveal(Seq::filter);
    if doc.len() > 0 {
        let dl = doc.drop_last();
        let last = doc.last();
        assert forall|i: int, j: int| 0 <= i < j < dl.len() implies dl[i].id@ != dl[j].id@
            && dl[i].name@ != dl[j].name@ by {
            assert(dl[i] == doc[i]);
            assert(dl[j] == doc[j]);
        }
        lemma_filter_preserves_wf(dl, pred);
        if pred(last) {
            assert forall|i: int| 0 <= i < dl.len() implies (dl[i].id@ != last.id@ && dl[i].name@
                != last.name@) by {
                assert(dl[i] == doc[i]);
                assert(last == doc[doc.len() - 1]);
            }
            lemma_filter_preserves_prop(
                dl,
                pred,
                |t: Script| t.id@ != last.id@ && t.name@ != last.name@,
            );
            let f = doc.filter(pred);
            let df = dl.filter(pred);
            assert(f == df.push(last));
            assert forall|i: int, j: int| 0 <= i < j < f.len() implies f[i].id@ != f[j].id@
                && f[i].name@ != f[j].name@ by {
                if j < df.len() {
                    assert(f[i] == df[i]);
                    assert(f[j] == df[j]);
                } else {
                    assert(f[j] == last);
                    assert(f[i] == df[i]);
                }
            }
        }
    }
}

/// Saving twice under one name is an upsert: whatever the document held
/// before, after saving `s1` and then `s2` under the same name exactly one
/// entry carries that name, and it is `s2` — content and all.
pub proof fn lemma_upsert_by_name_once(doc: Seq<Script>, s1: Script, s2: Script)
    requires
        s1.name@ == s2.name@,
    ensures
        upsert_doc(upsert_doc(doc, s1), s2).filter(carries_name(s2.name@)) =~= seq![s2],
{
    let p1 = keeps_other_keys(s1);
    let p2 = keeps_other_keys(s2);
    let q = carries_name(s2.name@);
    let f1 = doc.filter(p1);
    lemma_filter_push(f1, p2, s1);
    assert(!p2(s1));
    let f2 = f1.filter(p2);
    assert(upsert_doc(upsert_doc(doc, s1), s2) == f2.push(s2));
    assert forall|i: int| 0 <= i < f1.len() implies (f1[i].name@ != s1.name@) by {
        doc.lemma_filter_pred(p1, i);
    }
    lemma_filter_preserves_prop(f1, p2, |t: Script| t.name@ != s1.name@);
    assert forall|i: int| 0 <= i < f2.len() implies !q(f2[i]) by {
        assert(f2[i].name@ != s1.name@);
    }
    lemma_filter_none(f2, q);
    lemma_filter_push(f2, q, s2);
    assert(q(s2));
    assert(f2.push(s2).filter(q) =~= seq![s2]);
}

/// An upsert keeps the document well formed: ids and names stay unique
/// across the active set.
pub proof fn lemma_upsert_preserves_wf(doc: Seq<Script>, s: Script)
    requires
        doc_wf(doc),
    ensures
        doc_wf(upsert_doc(doc, s)),
{
    let p = keeps_other_keys(s);
    lemma_filter_preserves_wf(doc, p);
    let f = doc.filter(p);
    assert forall|i: int, j: int| 0 <= i < j < f.push(s).len() implies f.push(s)[i].id@ != f.push(
        s,
    )[j].id@ && f.push(s)[i].name@ != f.push(s)[j].name@ by {
        if j < f.len() {
            assert(f.push(s)[i] == f[i]);
            assert(f.push(s)[j] == f[j]);
        } else {
            doc.lemma_filter_pred(p, i);
            assert(f.push(s)[j] == s);
            assert(f.push(s)[i] == f[i]);
        }
    }
}

/// A delete keeps the document well formed too: removing entries cannot
/// introduce a duplicate id or name.
pub proof fn lemma_delete_preserves_wf(doc: Seq<Script>, id: Seq<char>)
    requires
        doc_wf(doc),
    ensures
        doc_wf(remove_doc(doc, id)),
{
    lemma_filter_preserves_wf(doc, keeps_other_id(id));
}

/// After an upsert the saved script is present: it stands at the end of
/// the document, findable under both its id and its name.
pub proof fn lemma_upsert_saves_script(doc: Seq<Script>, s: Script)
    ensures
        upsert_doc(doc, s).len() >= 1,
        upsert_doc(doc, s).last() == s,
        has_id(upsert_doc(doc, s), s.id@),
        has_name(upsert_doc(doc, s), s.name@),
{
    let u = upsert_doc(doc, s);
    assert(u[u.len() - 1] == s);
}

/// Under a well-formed document, deleting an existing id removes exactly
/// the one entry carrying it: the remainder is the document with that
/// position gone, order preserved.
#[verifier::rlimit(30)]
#[verifier::spinoff_prover]
pub proof fn lemma_delete_removes_exactly_one(doc: Seq<Script>, id: Seq<char>, k: int)
    requires
        doc_wf(doc),
        0 <= k < doc.len(),
        doc[k].id@ == id,
    ensures
        remove_doc(doc, id) =~= doc.subrange(0, k) + doc.subrange(k + 1, doc.len() as int),
    decreases doc.len(),
{
    let p = keeps_other_id(id);
    let dl = doc.drop_last();
    let last = doc.last();
    assert(doc =~= dl.push(last));
    lemma_filter_push(dl, p, last);
    assert(doc.filter(p) == dl.push(last).filter(p));
    if k == doc.len() - 1 {
        assert(!p(last));
        assert forall|i: int| 0 <= i < dl.len() implies p(dl[i]) by {
            assert(dl[i] == doc[i]);
            assert(doc[i].id@ != doc[k].id@);
        }
        lemma_filter_all(dl, p);
        assert(remove_doc(doc, id) =~= dl);
        assert(doc.subrange(k + 1, doc.len() as int) =~= Seq::<Script>::empty());
        assert(doc.subrange(0, k) =~= dl);
    } else {
        assert(p(last)) by {
            assert(doc[doc.len() - 1].id@ != doc[k].id@);
        }
        assert forall|i: int, j: int| 0 <= i < j < dl.len() implies dl[i].id@ != dl[j].id@
            && dl[i].name@ != dl[j].name@ by {
            assert(dl[i] == doc[i]);
            assert(dl[j] == doc[j]);
        }
        assert(dl[k] == doc[k]);
        lemma_delete_removes_exactly_one(dl, id, k);
        assert(doc.filter(p) == dl.filter(p).push(last));
        assert(dl.filter(p) =~= dl.subrange(0, k) + dl.subrange(k + 1, dl.len() as int));
        assert(dl.subrange(0, k) =~= doc.subrange(0, k));
        assert(remove_doc(doc, id) =~= doc.subrange(0, k) + doc.subrange(k + 1, doc.len() as int));
    }
}

/// The capability contract every persistence implementation must satisfy.
/// `contents` is the backend's active set of scripts; the remaining spec
/// functions describe what kind of backend this is.
pub trait StorageBackend: Sized {
    /// The active set of scripts this backend holds.
    spec fn contents(&self) -> Seq<Script>;

    /// Whether any operation of this backend can fail for I/O reasons.
    spec fn fallible(&self) -> bool;

    /// Whether this backend reconciles against a remote.
    spec fn has_remote(&self) -> bool;

    /// The last-sync stamp this backend reports.
    spec fn sync_stamp(&self) -> Option<i64>;

    /// The stable label naming this backend kind.
    spec fn type_label(&self) -> Seq<char>;

    /// Upsert by id or name: replaces any prior entry matching either key.
    fn save_script(&mut self, script: Script) -> (r: Result<(), VaultError>)
        ensures
            r is Ok ==> final(self).contents() == upsert_doc(old(self).contents(), script),
            r matches Err(e) ==> final(self).contents() == old(self).contents() && e
                == VaultError::IoFailure && old(self).fallible(),
            !old(self).fallible() ==> r is Ok,
    ;

    /// The first entry with the given id; `NotFound` if absent.
    fn load_script(&self, id: &str) -> (r: Result<&Script, VaultError>)
        ensures
            r matches Ok(s) ==> exists|i: int|
                first_match_by_id(self.contents(), id@, i) && *s == self.contents()[i],
            r matches Err(e) ==> (e == VaultError::NotFound && !has_id(self.contents(), id@)) || (
            e == VaultError::IoFailure && self.fallible()),
            !self.fallible() ==> (r is Ok <==> has_id(self.contents(), id@)),
    ;

    /// The first entry with the given name; `NotFound` if absent.
    fn load_script_by_name(&self, name: &str) -> (r: Result<&Script, VaultError>)
        ensures
            r matches Ok(s) ==> exists|i: int|
                first_match_by_name(self.contents(), name@, i) && *s == self.contents()[i],
            r matches Err(e) ==> (e == VaultError::NotFound && !has_name(self.contents(), name@))
                || (e == VaultError::IoFailure && self.fallible()),
            !self.fallible() ==> (r is Ok <==> has_name(self.contents(), name@)),
    ;

    /// All entries, in the backend's order.
    fn list_scripts(&self) -> (r: Result<&Vec<Script>, VaultError>)
        ensures
            r matches Ok(v) ==> v@ == self.contents(),
            r matches Err(e) ==> e == VaultError::IoFailure && self.fallible(),
            !self.fallible() ==> r is Ok,
    ;

    /// Removes every entry with the given id; `NotFound` if none exists,
    /// leaving the document unchanged.
    fn delete_script(&mut self, id: &str) -> (r: Result<(), VaultError>)
        ensures
            r is Ok ==> has_id(old(self).contents(), id@) && final(self).contents() == remove_doc(
                old(self).contents(),
                id@,
            ),
            r matches Err(e) ==> final(self).contents() == old(self).contents() && ((e
                == VaultError::NotFound && !has_id(old(self).contents(), id@)) || (e
                == VaultError::IoFailure && old(self).fallible())),
            !old(self).fallible() ==> (r is Ok <==> has_id(old(self).contents(), id@)),
    ;

    /// Whether an entry with the given id exists.
    fn script_exists(&self, id: &str) -> (r: Result<bool, VaultError>)
        ensures
            r matches Ok(b) ==> b == has_id(self.contents(), id@),
            r matches Err(e) ==> e == VaultError::IoFailure && self.fallible(),
            !self.fallible() ==> r is Ok,
    ;

    /// Count, total recorded size, last-sync stamp, and backend label.
    fn get_metadata(&self) -> (r: Result<StorageMetadata, VaultError>)
        ensures
            r matches Ok(m) ==> m.total_scripts == self.contents().len() && m.total_size_bytes
                as int == clamped_size_sum(self.contents()) && m.last_sync == self.sync_stamp()
                && m.backend_type@ == self.type_label(),
            r matches Err(e) ==> e == VaultError::IoFailure && self.fallible(),
            !self.fallible() ==> r is Ok,
    ;

    /// Liveness probe; a backend that cannot fail is always healthy.
    fn health_check(&self) -> (r: Result<bool, VaultError>)
        ensures
            !self.fallible() ==> r == Ok::<bool, VaultError>(true),
    ;

    /// Push local changes to the remote; a no-op without one.
    fn sync_push(&self) -> (r: Result<Vec<String>, VaultError>)
        ensures
            !self.has_remote() ==> (r matches Ok(v) && v@.len() == 0),
    ;

    /// Pull remote changes; a no-op without one.
    fn sync_pull(&self) -> (r: Result<Vec<String>, VaultError>)
        ensures
            !self.has_remote() ==> (r matches Ok(v) && v@.len() == 0),
    ;

    /// Reconciliation state for one script; `Synced` without a remote.
    fn get_sync_status(&self, script_id: &str) -> (r: Result<SyncStatus, VaultError>)
        ensures
            !self.has_remote() ==> r == Ok::<SyncStatus, VaultError>(SyncStatus::Synced),
    ;

    /// The stable label naming this backend kind.
    fn backend_type(&self) -> (r: &str)
        ensures
            r@ == self.type_label(),
    ;
}

/// The backend kind a lower-cased selector string names, if any.
pub open spec fn backend_kind_of(s: Seq<char>) -> Option<BackendKind> {
    if s == "local"@ {
        Some(BackendKind::Local)
    } else if s == "backblaze"@ || s == "b2"@ {
        Some(BackendKind::Backblaze)
    } else if s == "s3"@ || s == "aws"@ {
        Some(BackendKind::S3)
    } else if s == "gcs"@ || s == "google"@ {
        Some(BackendKind::Gcs)
    } else if s == "azure"@ {
        Some(BackendKind::Azure)
    } else {
        None
    }
}

/// The backend kind for a selector that is already lower-case;
/// `ValidationFailure` for an unrecognized one.
pub fn backend_kind_for_lowered(s: &str) -> (r: Result<BackendKind, VaultError>)
    ensures
        backend_kind_of(s@) matches Some(k) ==> r == Ok::<BackendKind, VaultError>(k),
        backend_kind_of(s@) is None ==> r == Err::<BackendKind, VaultError>(
            VaultError::ValidationFailure,
        ),
{
    if str_eq(s, "local") {
        Ok(BackendKind::Local)
    } else if str_eq(s, "backblaze") || str_eq(s, "b2") {
        Ok(BackendKind::Backblaze)
    } else if str_eq(s, "s3") || str_eq(s, "aws") {
        Ok(BackendKind::S3)
    } else if str_eq(s, "gcs") || str_eq(s, "google") {
        Ok(BackendKind::Gcs)
    } else if str_eq(s, "azure") {
        Ok(BackendKind::Azure)
    } else {
        Err(VaultError::ValidationFailure)
    }
}

/// The backend kind a selector names, compared case-insensitively;
/// `ValidationFailure` for an unrecognized one.
pub fn parse_backend_selector(s: &str) -> (r: Result<BackendKind, VaultError>)
    ensures
        backend_kind_of(lower_of(s@)) matches Some(k) ==> r == Ok::<BackendKind, VaultError>(k),
        backend_kind_of(lower_of(s@)) is None ==> r == Err::<BackendKind, VaultError>(
            VaultError::ValidationFailure,
        ),
{
    let lowered = lowercase(s);
    backend_kind_for_lowered(lowered.as_str())
}

/// Builds the backend a configuration selects. Only local storage is
/// implemented: the backend starts from an empty document, and the caller
/// loads any persisted document into it. Selecting any remote kind fails
/// fast with `Unimplemented`.
pub fn create_storage_backend(config: &StorageConfig) -> (r: Result<
    crate::local::LocalStorage,
    VaultError,
>)
    ensures
        config matches StorageConfig::Local { .. } ==> (r matches Ok(b) && b.contents()
            == Seq::<Script>::empty()),
        !(config matches StorageConfig::Local { .. }) ==> (r matches Err(e) && e
            == VaultError::Unimplemented),
{
    match config {
        StorageConfig::Local { .. } => Ok(crate::local::LocalStorage::new()),
        _ => Err(VaultError::Unimplemented),
    }
}

} // verus!
