//! The commit store that repositories and transactions share.
use vstd::prelude::*;
use std::sync::Arc;
use jj_lib::backend::{BackendError, CommitId};
use jj_lib::commit::Commit;
use jj_lib::merged_tree::MergedTree;
use jj_lib::object_id::ObjectId;
use jj_lib::repo::{ReadonlyRepo, Repo};
use jj_lib::store::Store;
use jj_lib::transaction::Transaction;

verus! {

#[verifier::external_type_specification]
#[verifier::external_body]
pub struct ExStore(Store);

#[verifier::external_type_specification]
#[verifier::external_body]
pub struct ExMergedTree(MergedTree);

#[verifier::external_type_specification]
#[verifier::external_body]
pub struct ExBackendError(BackendError);

/// Relies on `ReadonlyRepo::store` of jj-lib.
#[verifier::external_body]
pub(crate) fn repo_store(repo: &Arc<ReadonlyRepo>) -> &Arc<Store> {
    repo.store()
}

/// Relies on `MutableRepo::store` of jj-lib, for the transaction's repository.
#[verifier::external_body]
pub(crate) fn transaction_store(tx: &Transaction) -> &Arc<Store> {
    tx.repo().store()
}

/// Relies on `Store::get_commit` of jj-lib: the commit of the given id, or the
/// store's error.
#[verifier::external_body]
pub(crate) fn get_commit(store: &Arc<Store>, id: &Vec<u8>) -> Result<Commit, BackendError> {
    store.get_commit(&CommitId::new(id.clone()))
}

/// Relies on the variants `ObjectNotFound` and `InvalidHashLength` of jj-lib's
/// `BackendError`: the store holds no object of the id asked for.
#[verifier::external_body]
pub(crate) fn is_unknown_id(e: &BackendError) -> bool {
    match e {
        BackendError::ObjectNotFound { .. } => true,
        BackendError::InvalidHashLength { .. } => true,
        _ => false,
    }
}

/// Relies on `Store::root_commit` of jj-lib.
#[verifier::external_body]
pub(crate) fn root_commit(store: &Arc<Store>) -> Commit {
    store.root_commit()
}

/// Every byte is zero.
pub open spec fn all_zero(b: Seq<u8>) -> bool {
    forall|i: int| 0 <= i < b.len() ==> b[i] == 0
}

/// Is every byte zero?
pub fn is_all_zero(b: &Vec<u8>) -> (r: bool)
    ensures
        r == all_zero(b@),
{
    let mut i: usize = 0;
    while i < b.len()
        invariant
            i <= b.len(),
            forall|j: int| 0 <= j < i ==> b@[j] == 0,
        decreases b.len() - i,
    {
        if b[i] != 0 {
            return false;
        }
        i = i + 1;
    }
    true
}

/// Relies on `Store::root_commit_id` of jj-lib: the bytes of the root commit's
/// id, which every backend of jj-lib (simple, git, and secret over either)
/// makes a run of zero bytes.
#[verifier::external_body]
pub(crate) fn root_commit_id(store: &Arc<Store>) -> (r: Vec<u8>)
    ensures
        all_zero(r@),
{
    store.root_commit_id().to_bytes()
}

/// Relies on `Store::root_change_id` of jj-lib: the bytes of the root's change id.
#[verifier::external_body]
pub(crate) fn root_change_id(store: &Arc<Store>) -> Vec<u8> {
    store.root_change_id().to_bytes()
}

/// Relies on `Store::empty_merged_tree` of jj-lib: the tree of no files.
#[verifier::external_body]
pub(crate) fn empty_tree(store: &Arc<Store>) -> MergedTree {
    store.empty_merged_tree()
}

} // verus!
