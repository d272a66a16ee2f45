//! The local backend: the whole scripts document held as one in-memory
//! list, satisfying the storage backend contract. Reading the document
//! from disk and writing it back wholesale is the caller's concern; every
//! operation here is a pure transformation of the document.

use vstd::prelude::*;

use crate::errors::VaultError;
use crate::script::Script;
use crate::storage::{
    clamped_size_sum, first_match_by_id, first_match_by_name, has_id, lemma_filter_push,
    remove_doc, size_sum, StorageBackend, StorageMetadata, SyncStatus,
};
use crate::text::str_eq;

verus! {

/// The local storage backend: one whole scripts document.
pub struct LocalStorage {
    scripts: Vec<Script>,
}

proof fn lemma_size_sum_nonneg(doc: Seq<Script>)
    ensures
        size_sum(doc) >= 0,
    decreases doc.len(),
{
    if doc.len() > 0 {
        lemma_size_sum_nonneg(doc.drop_last());
    }
}

impl LocalStorage {
    /// A backend holding an empty document.
    pub fn new() -> (r: LocalStorage)
        ensures
            r.contents() == Seq::<Script>::empty(),
    {
        let r = LocalStorage { scripts: Vec::new() };
        proof {
            assert(r.contents() =~= Seq::<Script>::empty());
        }
        r
    }

    /// A backend holding the given document, as read from disk.
    pub fn from_scripts(scripts: Vec<Script>) -> (r: LocalStorage)
        ensures
            r.contents() == scripts@,
    {
        LocalStorage { scripts }
    }

    /// The document, to be written back to disk wholesale.
    pub fn into_scripts(self) -> (r: Vec<Script>)
        ensures
            r@ == self.contents(),
    {
        self.scripts
    }

    /// The recorded sizes of all entries summed, saturating at `u64::MAX`.
    fn calculate_total_size(&self) -> (r: u64)
        ensures
            r as int == clamped_size_sum(self.contents()),
    {
        let mut acc: u64 = 0;
        let mut i: usize = 0;
        while i < self.scripts.len()
            invariant
                0 <= i <= self.scripts@.len(),
                acc as int == clamped_size_sum(self.scripts@.subrange(0, i as int)),
            decreases self.scripts@.len() - i,
        {
            let ghost prefix = self.scripts@.subrange(0, i as int);
            let ghost next = self.scripts@.subrange(0, i + 1);
            proof {
                assert(next.drop_last() =~= prefix);
                assert(next.last() == self.scripts@[i as int]);
                lemma_size_sum_nonneg(prefix);
            }
            let sb: u64 = self.scripts[i].metadata.size_bytes as u64;
            if sb > u64::MAX - acc {
                acc = u64::MAX;
            } else {
                acc = acc + sb;
            }
            i += 1;
        }
        proof {
            assert(self.scripts@.subrange(0, self.scripts@.len() as int) =~= self.scripts@);
        }
        acc
    }

    /// Rebuilds the document keeping only entries whose id and name both
    /// differ from the given script's; used by the upsert.
    fn retain_not_matching(&mut self, script: &Script)
        ensures
            final(self).contents() == old(self).contents().filter(
                crate::storage::keeps_other_keys(*script),
            ),
    {
        let ghost orig = self.scripts@;
        let ghost pred = crate::storage::keeps_other_keys(*script);
        let mut kept: Vec<Script> = Vec::new();
        proof {
            assert(orig.subrange(0, 0) =~= Seq::<Script>::empty());
            reveal(Seq::filter);
        }
        let ghost mut k: int = 0;
        while self.scripts.len() > 0
            invariant
                0 <= k <= orig.len(),
                self.scripts@ =~= orig.subrange(k, orig.len() as int),
                kept@ == orig.subrange(0, k).filter(pred),
                pred == crate::storage::keeps_other_keys(*script),
            decreases self.scripts@.len(),
        {
            let t = self.scripts.remove(0);
            proof {
                assert(t == orig[k]);
                assert(orig.subrange(0, k + 1) =~= orig.subrange(0, k).push(orig[k]));
                lemma_filter_push(orig.subrange(0, k), pred, orig[k]);
                assert(self.scripts@ =~= orig.subrange(k + 1, orig.len() as int));
            }
            let keep = !(str_eq(t.id.as_str(), script.id.as_str()) || str_eq(
                t.name.as_str(),
                script.name.as_str(),
            ));
            if keep {
                kept.push(t);
            }
            proof {
                k = k + 1;
            }
        }
        proof {
            assert(orig.subrange(k, orig.len() as int) =~= self.scripts@);
            assert(k == orig.len());
            assert(orig.subrange(0, orig.len() as int) =~= orig);
        }
        self.scripts = kept;
    }

    /// Rebuilds the document keeping only entries whose id differs from
    /// the given one; used by the delete.
    fn retain_other_ids(&mut self, id: &str)
        ensures
            final(self).contents() == remove_doc(old(self).contents(), id@),
    {
        let ghost orig = self.scripts@;
        let ghost pred = crate::storage::keeps_other_id(id@);
        let mut kept: Vec<Script> = Vec::new();
        proof {
            assert(orig.subrange(0, 0) =~= Seq::<Script>::empty());
            reveal(Seq::filter);
        }
        let ghost mut k: int = 0;
        while self.scripts.len() > 0
            invariant
                0 <= k <= orig.len(),
                self.scripts@ =~= orig.subrange(k, orig.len() as int),
                kept@ == orig.subrange(0, k).filter(pred),
                pred == crate::storage::keeps_other_id(id@),
            decreases self.scripts@.len(),
        {
            let t = self.scripts.remove(0);
            proof {
                assert(t == orig[k]);
                assert(orig.subrange(0, k + 1) =~= orig.subrange(0, k).push(orig[k]));
                lemma_filter_push(orig.subrange(0, k), pred, orig[k]);
                assert(self.scripts@ =~= orig.subrange(k + 1, orig.len() as int));
            }
            let keep = !str_eq(t.id.as_str(), id);
            if keep {
                kept.push(t);
            }
            proof {
                k = k + 1;
            }
        }
        proof {
            assert(orig.subrange(k, orig.len() as int) =~= self.scripts@);
            assert(k == orig.len());
            assert(orig.subrange(0, orig.len() as int) =~= orig);
        }
        self.scripts = kept;
    }

    /// Whether some entry's id equals the given one.
    fn contains_id(&self, id: &str) -> (r: bool)
        ensures
            r == has_id(self.contents(), id@),
    {
        let mut i: usize = 0;
        while i < self.scripts.len()
            invariant
                0 <= i <= self.scripts@.len(),
                forall|j: int| 0 <= j < i ==> self.scripts@[j].id@ != id@,
            decreases self.scripts@.len() - i,
        {
            if str_eq(self.scripts[i].id.as_str(), id) {
                return true;
            }
            i += 1;
        }
        false
    }
}

impl StorageBackend for LocalStorage {
    closed spec fn contents(&self) -> Seq<Script> {
        self.scripts@
    }

    open spec fn fallible(&self) -> bool {
        false
    }

    open spec fn has_remote(&self) -> bool {
        false
    }

    open spec fn sync_stamp(&self) -> Option<i64> {
        None
    }

    open spec fn type_label(&self) -> Seq<char> {
        "local"@
    }

    fn save_script(&mut self, script: Script) -> (r: Result<(), VaultError>) {
        self.retain_not_matching(&script);
        self.scripts.push(script);
        Ok(())
    }

    fn load_script(&self, id: &str) -> (r: Result<&Script, VaultError>) {
        let mut i: usize = 0;
        while i < self.scripts.len()
            invariant
                0 <= i <= self.scripts@.len(),
                forall|j: int| 0 <= j < i ==> self.scripts@[j].id@ != id@,
            decreases self.scripts@.len() - i,
        {
            if str_eq(self.scripts[i].id.as_str(), id) {
                proof {
                    assert(first_match_by_id(self.contents(), id@, i as int));
                }
                return Ok(&self.scripts[i]);
            }
            i += 1;
        }
        Err(VaultError::NotFound)
    }

    fn load_script_by_name(&self, name: &str) -> (r: Result<&Script, VaultError>) {
        let mut i: usize = 0;
        while i < self.scripts.len()
            invariant
                0 <= i <= self.scripts@.len(),
                forall|j: int| 0 <= j < i ==> self.scripts@[j].name@ != name@,
            decreases self.scripts@.len() - i,
        {
            if str_eq(self.scripts[i].name.as_str(), name) {
                proof {
                    assert(first_match_by_name(self.contents(), name@, i as int));
                }
                return Ok(&self.scripts[i]);
            }
            i += 1;
        }
        Err(VaultError::NotFound)
    }

    fn list_scripts(&self) -> (r: Result<&Vec<Script>, VaultError>) {
        Ok(&self.scripts)
    }

    fn delete_script(&mut self, id: &str) -> (r: Result<(), VaultError>) {
        if !self.contains_id(id) {
            return Err(VaultError::NotFound);
        }
        self.retain_other_ids(id);
        Ok(())
    }

    fn script_exists(&self, id: &str) -> (r: Result<bool, VaultError>) {
        Ok(self.contains_id(id))
    }

    fn get_metadata(&self) -> (r: Result<StorageMetadata, VaultError>) {
        Ok(
            StorageMetadata {
                total_scripts: self.scripts.len(),
                total_size_bytes: self.calculate_total_size(),
                last_sync: None,
                backend_type: "local".to_owned(),
            },
        )
    }

    fn health_check(&self) -> (r: Result<bool, VaultError>) {
        Ok(true)
    }

    fn sync_push(&self) -> (r: Result<Vec<String>, VaultError>) {
        Ok(Vec::new())
    }

    fn sync_pull(&self) -> (r: Result<Vec<String>, VaultError>) {
        Ok(Vec::new())
    }

    fn get_sync_status(&self, script_id: &str) -> (r: Result<SyncStatus, VaultError>) {
        Ok(SyncStatus::Synced)
    }

    fn backend_type(&self) -> (r: &str) {
        "local"
    }
}

} // verus!
