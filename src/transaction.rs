//! The single-use mutation handle: it holds its transaction until one `commit`
//! or `discard` takes it, after which every operation fails.
use vstd::prelude::*;
use std::sync::Arc;
use jj_lib::backend::{BackendError, CommitId, Signature};
use jj_lib::config::ConfigGetError;
use jj_lib::commit::Commit;
use jj_lib::commit_builder::CommitBuilder;
use jj_lib::merged_tree::MergedTree;
use jj_lib::repo::ReadonlyRepo;
use jj_lib::transaction::{Transaction, TransactionCommitError};
use crate::commit::{FfiCommit, FfiNewCommit, FfiRewriteCommit, commit_description, commit_parent_id_bytes};
use crate::error::{JjError, finalized_error, is_finalized_error, joined};
use crate::hexcode::{hex_decoded, hex_of, is_hex_bytes_text};
use crate::ids::FfiCommitId;
use crate::repo::FfiReadonlyRepo;
use crate::signature::{FfiSignature, FfiTimestamp, timestamp_now};
use crate::store;

verus! {

#[verifier::external_type_specification]
#[verifier::external_body]
pub struct ExTransaction(Transaction);

#[verifier::external_type_specification]
#[verifier::external_body]
pub struct ExCommitBuilder<'repo>(CommitBuilder<'repo>);

#[verifier::external_type_specification]
#[verifier::external_body]
pub struct ExTransactionCommitError(TransactionCommitError);

/// The operations of a transaction as its lifecycle sees them: those that
/// work on it, and `commit` and `discard`, which end it.
pub enum TxOp {
    Work,
    Finalize,
}

/// Is the transaction active after `op`, given whether it was before?
pub open spec fn active_after(active: bool, op: TxOp) -> bool {
    match op {
        TxOp::Work => active,
        TxOp::Finalize => false,
    }
}

/// Is the transaction active after the operations, in order?
pub open spec fn active_after_all(active: bool, ops: Seq<TxOp>) -> bool
    decreases ops.len(),
{
    if ops.len() == 0 {
        active
    } else {
        active_after_all(active_after(active, ops[0]), ops.drop_first())
    }
}

proof fn inactive_stays_inactive(ops: Seq<TxOp>)
    ensures
        !active_after_all(false, ops),
    decreases ops.len(),
{
    if ops.len() > 0 {
        inactive_stays_inactive(ops.drop_first());
    }
}

/// Once a `commit` or `discard` has ended a transaction, it stays ended
/// whatever operations follow: before each of them it is finalized, so each
/// is refused with the finalized error.
pub proof fn finalization_is_permanent(active: bool, ops: Seq<TxOp>)
    ensures
        forall|i: int|
            0 <= i <= ops.len() ==> !(#[trigger] active_after_all(
                active_after(active, TxOp::Finalize),
                ops.take(i),
            )),
{
    assert forall|i: int| 0 <= i <= ops.len() implies !(#[trigger] active_after_all(
        active_after(active, TxOp::Finalize),
        ops.take(i),
    )) by {
        inactive_stays_inactive(ops.take(i));
    }
}

/// Every id is an even number of hex digits.
pub open spec fn all_hex_ids(ids: Seq<FfiCommitId>) -> bool {
    forall|i: int| 0 <= i < ids.len() ==> #[trigger] is_hex_bytes_text(ids[i].hex@)
}

/// What a list of parents must be before the store is asked about it: not
/// empty, and every id well formed.
pub open spec fn parents_well_formed(ids: Seq<FfiCommitId>) -> bool {
    ids.len() > 0 && all_hex_ids(ids)
}

/// The id is well formed and stands for the root commit's id, all zero bytes.
pub open spec fn names_root(id: FfiCommitId) -> bool {
    is_hex_bytes_text(id.hex@) && id.hex@.len() > 0 && store::all_zero(hex_decoded(id.hex@))
}

/// The commit has the given parents, each written back in lowercase hex.
pub open spec fn has_parents(c: FfiCommit, ids: Seq<FfiCommitId>) -> bool {
    &&& c.parent_ids.len() == ids.len()
    &&& forall|i: int|
        0 <= i < ids.len() ==> #[trigger] c.parent_ids[i].hex@ == hex_of(hex_decoded(ids[i].hex@))
}

/// The commit was written with the given parents and description.
pub open spec fn written_as(c: FfiCommit, ids: Seq<FfiCommitId>, description: Seq<char>) -> bool {
    has_parents(c, ids) && c.description@ == description
}

/// The author that a new commit names: the given name, email and time where
/// both name and email are given (now, where no time is), else none.
fn given_author(c: &FfiNewCommit) -> (r: Option<FfiSignature>)
    ensures
        (c.author_name is Some && c.author_email is Some) <==> r is Some,
        r is Some ==> r->Some_0.name@ == c.author_name->Some_0@ && r->Some_0.email@
            == c.author_email->Some_0@ && (c.author_timestamp is Some ==> r->Some_0.timestamp
            == c.author_timestamp->Some_0),
{
    match (&c.author_name, &c.author_email) {
        (Some(name), Some(email)) => {
            let timestamp = match &c.author_timestamp {
                Some(t) => FfiTimestamp {
                    millis_since_epoch: t.millis_since_epoch,
                    tz_offset_minutes: t.tz_offset_minutes,
                },
                None => FfiTimestamp::from_engine(&timestamp_now()),
            };
            Some(FfiSignature { name: name.clone(), email: email.clone(), timestamp })
        },
        _ => None,
    }
}

/// The parents and description of a rewritten commit: those given, and the
/// target's where none are given.
pub fn rewritten_fields(
    new_parents: Option<Vec<Vec<u8>>>,
    old_parents: Vec<Vec<u8>>,
    new_description: &Option<String>,
    old_description: String,
) -> (r: (Vec<Vec<u8>>, String))
    ensures
        new_parents is Some ==> r.0 == new_parents->Some_0,
        new_parents is None ==> r.0 == old_parents,
        new_description is Some ==> r.1@ == new_description->Some_0@,
        new_description is None ==> r.1 == old_description,
{
    let parents = match new_parents {
        Some(p) => p,
        None => old_parents,
    };
    let description = match new_description {
        Some(d) => d.clone(),
        None => old_description,
    };
    (parents, description)
}

/// The bytes of each id, in order; InvalidArgument on the first id that is not
/// hex, and on an empty list.
pub fn parent_bytes(ids: &Vec<FfiCommitId>) -> (r: Result<Vec<Vec<u8>>, JjError>)
    ensures
        r is Ok <==> parents_well_formed(ids@),
        r is Err ==> r->Err_0 is InvalidArgument,
        r is Ok ==> r->Ok_0.len() == ids.len() && forall|i: int|
            0 <= i < ids.len() ==> #[trigger] r->Ok_0[i]@ == hex_decoded(ids[i].hex@),
{
    let mut out: Vec<Vec<u8>> = Vec::new();
    let mut i: usize = 0;
    while i < ids.len()
        invariant
            i <= ids.len(),
            out.len() == i,
            forall|j: int| 0 <= j < i ==> #[trigger] is_hex_bytes_text(ids[j].hex@),
            forall|j: int| 0 <= j < i ==> #[trigger] out[j]@ == hex_decoded(ids[j].hex@),
        decreases ids.len() - i,
    {
        match ids[i].to_bytes("Invalid parent commit ID: ") {
            Ok(b) => out.push(b),
            Err(e) => return Err(e),
        }
        i = i + 1;
    }
    if ids.len() == 0 {
        return Err(
            JjError::InvalidArgument {
                message: String::from_str("At least one parent commit ID is required"),
            },
        );
    }
    Ok(out)
}

/// The commit of the given id in the transaction's store.
fn lookup_commit(tx: &CheckedTransaction, id: &Vec<u8>) -> Result<Commit, BackendError> {
    store::get_commit(store::transaction_store(&tx.tx), id)
}

/// Relies on `Commit::tree` of jj-lib.
#[verifier::external_body]
fn commit_tree(c: &Commit) -> MergedTree {
    c.tree()
}

/// A commit builder whose list of parents is not empty: the engine's
/// `Store::write_commit` asserts as much, so only such a builder is written.
pub struct ParentedBuilder<'a> {
    b: CommitBuilder<'a>,
}

/// A transaction whose repository settings hold
/// `experimental.record-predecessors-in-commit`: the engine's commit builders,
/// and the rebase of descendants that uses them, unwrap that setting, so only
/// such a transaction builds commits.
pub struct CheckedTransaction {
    pub(crate) tx: Transaction,
}

/// The setting that the engine's commit builders unwrap.
pub const PREDECESSORS_SETTING: &'static str = "experimental.record-predecessors-in-commit";

/// Relies on `UserSettings::get_bool` of jj-lib, on the settings of the
/// transaction's repository: the transaction, where the setting can be read
/// as the builders read it, or the error they would unwrap.
#[verifier::external_body]
fn check_settings(tx: Transaction) -> Result<CheckedTransaction, ConfigGetError> {
    match tx.base_repo().settings().get_bool(PREDECESSORS_SETTING) {
        Ok(_) => Ok(CheckedTransaction { tx }),
        Err(e) => Err(e),
    }
}

/// The transaction, where its settings let it build commits; an Internal
/// error otherwise.
pub fn checked(tx: Transaction) -> (r: Result<CheckedTransaction, JjError>)
    ensures
        r is Err ==> r->Err_0 is Internal,
{
    match check_settings(tx) {
        Ok(t) => Ok(t),
        Err(e) => Err(
            JjError::Internal {
                message: joined("The repository settings cannot build commits: ", e.to_string().as_str()),
            },
        ),
    }
}

/// A transaction whose rewritten and abandoned commits have had their
/// descendants moved: the engine's `Transaction::write` asserts as much, so
/// only such a transaction is committed.
pub struct RebasedTransaction {
    tx: Transaction,
}

/// Relies on `MutableRepo::new_commit` of jj-lib: a builder of a commit on the
/// given parents with the given tree. It panics on an empty list of parents.
/// It reads `experimental.record-predecessors-in-commit` from the settings,
/// which the defaults that `create_user_settings` starts from hold.
#[verifier::external_body]
fn new_commit_builder<'a>(tx: &'a mut CheckedTransaction, parents: Vec<Vec<u8>>, tree: MergedTree) -> ParentedBuilder<'a>
    requires
        parents.len() > 0,
{
    ParentedBuilder { b: tx.tx.repo_mut().new_commit(parents.into_iter().map(CommitId::new).collect(), tree) }
}

/// Relies on `MutableRepo::rewrite_commit` of jj-lib: a builder of a successor
/// of the given commit. It reads the same setting as `new_commit_builder`.
#[verifier::external_body]
fn rewrite_builder<'a>(tx: &'a mut CheckedTransaction, c: &Commit) -> CommitBuilder<'a> {
    tx.tx.repo_mut().rewrite_commit(c)
}

/// Relies on `CommitBuilder::set_description` of jj-lib.
#[verifier::external_body]
fn builder_description<'a>(b: ParentedBuilder<'a>, description: &str) -> ParentedBuilder<'a> {
    ParentedBuilder { b: b.b.set_description(description) }
}

/// Relies on `CommitBuilder::set_author` of jj-lib.
#[verifier::external_body]
fn builder_author<'a>(b: ParentedBuilder<'a>, author: Signature) -> ParentedBuilder<'a> {
    ParentedBuilder { b: b.b.set_author(author) }
}

/// Relies on `CommitBuilder::set_parents` of jj-lib, which panics on an empty list.
#[verifier::external_body]
fn builder_parents<'a>(b: CommitBuilder<'a>, parents: Vec<Vec<u8>>) -> ParentedBuilder<'a>
    requires
        parents.len() > 0,
{
    ParentedBuilder { b: b.set_parents(parents.into_iter().map(CommitId::new).collect()) }
}

/// Relies on `CommitBuilder::write` of jj-lib: the commit written, or the
/// store's error.
#[verifier::external_body]
fn builder_write<'a>(b: ParentedBuilder<'a>) -> Result<Commit, BackendError> {
    b.b.write()
}

/// Relies on `MutableRepo::record_abandoned_commit_with_parents` of jj-lib,
/// which panics on the root commit, whose id is all zero bytes.
#[verifier::external_body]
fn record_abandoned(tx: &mut Transaction, id: &Vec<u8>, parents: &Vec<Vec<u8>>)
    requires
        !store::all_zero(id@),
{
    tx.repo_mut().record_abandoned_commit_with_parents(
        CommitId::new(id.clone()),
        parents.iter().cloned().map(CommitId::new),
    )
}

/// Relies on `MutableRepo::rebase_descendants` of jj-lib: the descendants of
/// rewritten and abandoned commits are moved onto their successors, and no
/// rewrite is left pending.
#[verifier::external_body]
fn rebase_descendants(tx: CheckedTransaction) -> Result<RebasedTransaction, BackendError> {
    let mut tx = tx.tx;
    match tx.repo_mut().rebase_descendants() {
        Ok(_) => Ok(RebasedTransaction { tx }),
        Err(e) => Err(e),
    }
}

/// Relies on `MutableRepo::has_changes` of jj-lib.
#[verifier::external_body]
fn repo_has_changes(tx: &Transaction) -> bool {
    tx.repo().has_changes()
}

/// Relies on `Transaction::commit` of jj-lib: the repository after the
/// transaction's operation was written and published, or the error.
#[verifier::external_body]
fn commit_operation(tx: RebasedTransaction, description: &str) -> Result<Arc<ReadonlyRepo>, TransactionCommitError> {
    tx.tx.commit(description)
}

fn backend_error(e: &BackendError) -> (r: JjError)
    ensures
        r is Backend,
{
    JjError::Backend { message: e.to_string() }
}

/// Does the store hold every parent? InvalidArgument on the first that it
/// does not hold; Backend where the store fails otherwise.
fn parents_in_store(tx: &CheckedTransaction, parents: &Vec<Vec<u8>>) -> (r: Result<(), JjError>)
    ensures
        r is Err ==> r->Err_0 is InvalidArgument || r->Err_0 is Backend,
{
    let mut i: usize = 0;
    while i < parents.len()
        decreases parents.len() - i,
    {
        if let Err(e) = lookup_commit(tx, &parents[i]) {
            return Err(missing_or_failed(&e, "Parent commit not found: "));
        }
        i = i + 1;
    }
    Ok(())
}

/// InvalidArgument for an object the store does not hold, Backend otherwise.
fn missing_or_failed(e: &BackendError, what: &str) -> (r: JjError)
    ensures
        r is InvalidArgument || r is Backend,
{
    let text = e.to_string();
    if store::is_unknown_id(e) {
        JjError::InvalidArgument { message: joined(what, text.as_str()) }
    } else {
        JjError::Backend { message: text }
    }
}

/// Takes the transaction out of the slot and writes it; the slot is empty
/// afterwards whatever the outcome. The descendants of rewritten and abandoned
/// commits are moved first, as the engine requires before writing.
pub(crate) fn commit_slot(slot: &mut Option<CheckedTransaction>, description: &str) -> (r: Result<
    FfiReadonlyRepo,
    JjError,
>)
    ensures
        *final(slot) is None,
        *old(slot) is None ==> r is Err && is_finalized_error(r->Err_0),
        r is Err && !is_finalized_error(r->Err_0) ==> r->Err_0 is Transaction,
        *old(slot) is Some ==> r is Ok || r->Err_0 is Transaction,
{
    let tx = match slot.take() {
        Some(tx) => tx,
        None => return Err(finalized_error()),
    };
    let rebased = match rebase_descendants(tx) {
        Ok(t) => t,
        Err(e) => return Err(JjError::Transaction { message: e.to_string() }),
    };
    match commit_operation(rebased, description) {
        Ok(repo) => Ok(FfiReadonlyRepo::new(repo)),
        Err(e) => Err(JjError::Transaction { message: e.to_string() }),
    }
}

/// Takes the transaction out of the slot and drops it.
pub(crate) fn discard_slot(slot: &mut Option<CheckedTransaction>) -> (r: Result<(), JjError>)
    ensures
        *final(slot) is None,
        r is Ok <==> *old(slot) is Some,
        r is Err ==> is_finalized_error(r->Err_0),
{
    match slot.take() {
        Some(_) => Ok(()),
        None => Err(finalized_error()),
    }
}

/// A transaction exposed to callers: active until `commit` or `discard`.
pub struct FfiTransaction {
    slot: Option<CheckedTransaction>,
}

impl FfiTransaction {
    /// True until the transaction was committed or discarded.
    pub closed spec fn is_active(&self) -> bool {
        self.slot is Some
    }

    /// A handle on the transaction; an Internal error where the repository's
    /// settings cannot build commits.
    pub fn new(transaction: Transaction) -> (r: Result<Self, JjError>)
        ensures
            r is Ok ==> r->Ok_0.is_active(),
            r is Err ==> r->Err_0 is Internal,
    {
        match checked(transaction) {
            Ok(t) => Ok(FfiTransaction { slot: Some(t) }),
            Err(e) => Err(e),
        }
    }

    /// Is the transaction still active?
    pub fn is_open(&self) -> (r: bool)
        ensures
            r == self.is_active(),
    {
        self.slot.is_some()
    }

    /// A new commit on the given parents with an empty tree. The parents must be
    /// well formed and found in the store (InvalidArgument otherwise); the
    /// author is the given one where both name and email are given.
    pub fn create_empty_commit(&mut self, new_commit: FfiNewCommit) -> (r: Result<FfiCommit, JjError>)
        ensures
            final(self).is_active() == active_after(old(self).is_active(), TxOp::Work),
            !old(self).is_active() ==> r is Err && is_finalized_error(r->Err_0),
            old(self).is_active() && !parents_well_formed(new_commit.parent_ids@) ==> r is Err
                && r->Err_0 is InvalidArgument,
            old(self).is_active() && r is Err ==> r->Err_0 is InvalidArgument || r->Err_0 is Backend
                || r->Err_0 is Internal,
            r is Ok ==> written_as(r->Ok_0, new_commit.parent_ids@, new_commit.description@),
            r is Ok && new_commit.author_name is Some && new_commit.author_email is Some ==> {
                &&& r->Ok_0.author.name@ == new_commit.author_name->Some_0@
                &&& r->Ok_0.author.email@ == new_commit.author_email->Some_0@
                &&& new_commit.author_timestamp is Some ==> r->Ok_0.author.timestamp
                    == new_commit.author_timestamp->Some_0
            },
    {
        let tx = match &mut self.slot {
            Some(tx) => tx,
            None => return Err(finalized_error()),
        };
        let parents = match parent_bytes(&new_commit.parent_ids) {
            Ok(p) => p,
            Err(e) => return Err(e),
        };
        if let Err(e) = parents_in_store(tx, &parents) {
            return Err(e);
        }
        let tree = store::empty_tree(store::transaction_store(&tx.tx));
        let mut builder = builder_description(
            new_commit_builder(tx, parents.clone(), tree),
            new_commit.description.as_str(),
        );
        let author = given_author(&new_commit);
        if let Some(a) = &author {
            builder = builder_author(builder, a.to_engine());
        }
        let expected = match &author {
            Some(a) => Some(a),
            None => None,
        };
        match builder_write(builder) {
            Ok(c) => FfiCommit::from_written(&c, &parents, &new_commit.description, expected),
            Err(e) => Err(backend_error(&e)),
        }
    }

    /// A new commit on one parent, with the parent's tree. The parent must be
    /// well formed and found in the store (InvalidArgument otherwise).
    pub fn create_commit_from_parent(&mut self, parent_id: &FfiCommitId, description: String) -> (r:
        Result<FfiCommit, JjError>)
        ensures
            final(self).is_active() == active_after(old(self).is_active(), TxOp::Work),
            !old(self).is_active() ==> r is Err && is_finalized_error(r->Err_0),
            old(self).is_active() && !is_hex_bytes_text(parent_id.hex@) ==> r is Err
                && r->Err_0 is InvalidArgument,
            old(self).is_active() && r is Err ==> r->Err_0 is InvalidArgument || r->Err_0 is Backend
                || r->Err_0 is Internal,
            r is Ok ==> written_as(r->Ok_0, seq![*parent_id], description@),
    {
        let tx = match &mut self.slot {
            Some(tx) => tx,
            None => return Err(finalized_error()),
        };
        let bytes = match parent_id.to_bytes("Invalid parent commit ID: ") {
            Ok(b) => b,
            Err(e) => return Err(e),
        };
        let parent = match lookup_commit(tx, &bytes) {
            Ok(c) => c,
            Err(e) => return Err(missing_or_failed(&e, "Parent commit not found: ")),
        };
        let tree = commit_tree(&parent);
        let mut parents: Vec<Vec<u8>> = Vec::new();
        parents.push(bytes);
        let builder = builder_description(
            new_commit_builder(tx, parents.clone(), tree),
            description.as_str(),
        );
        match builder_write(builder) {
            Ok(c) => FfiCommit::from_written(&c, &parents, &description, None),
            Err(e) => Err(backend_error(&e)),
        }
    }

    /// A successor of a commit that takes the fields given and keeps the others.
    /// New parents, where given, must be well formed, not empty and found in
    /// the store; the root commit cannot be rewritten.
    pub fn rewrite_commit(&mut self, rewrite: FfiRewriteCommit) -> (r: Result<FfiCommit, JjError>)
        ensures
            final(self).is_active() == active_after(old(self).is_active(), TxOp::Work),
            !old(self).is_active() ==> r is Err && is_finalized_error(r->Err_0),
            old(self).is_active() && (!is_hex_bytes_text(rewrite.commit_id.hex@) || (
            rewrite.new_parent_ids is Some && !parents_well_formed(
                rewrite.new_parent_ids->Some_0@,
            ))) ==> r is Err && r->Err_0 is InvalidArgument,
            old(self).is_active() && names_root(rewrite.commit_id) ==> r is Err && r->Err_0 is InvalidArgument,
            old(self).is_active() && r is Err ==> r->Err_0 is InvalidArgument || r->Err_0 is Backend
                || r->Err_0 is Internal,
            r is Ok && rewrite.new_parent_ids is Some ==> has_parents(
                r->Ok_0,
                rewrite.new_parent_ids->Some_0@,
            ),
            r is Ok && rewrite.new_description is Some ==> r->Ok_0.description@
                == rewrite.new_description->Some_0@,
    {
        let tx = match &mut self.slot {
            Some(tx) => tx,
            None => return Err(finalized_error()),
        };
        let id = match rewrite.commit_id.to_bytes("Invalid commit ID: ") {
            Ok(b) => b,
            Err(e) => return Err(e),
        };
        let new_parents = match &rewrite.new_parent_ids {
            Some(ids) => match parent_bytes(ids) {
                Ok(p) => Some(p),
                Err(e) => return Err(e),
            },
            None => None,
        };
        if id.len() == 0 {
            return Err(
                JjError::InvalidArgument { message: String::from_str("An empty commit ID names no commit") },
            );
        }
        if store::is_all_zero(&id) {
            return Err(
                JjError::InvalidArgument {
                    message: String::from_str("The root commit cannot be rewritten"),
                },
            );
        }
        let commit = match lookup_commit(tx, &id) {
            Ok(c) => c,
            Err(e) => return Err(backend_error(&e)),
        };
        if let Some(p) = &new_parents {
            if let Err(e) = parents_in_store(tx, p) {
                return Err(e);
            }
        }
        let (parents, description) = rewritten_fields(
            new_parents,
            commit_parent_id_bytes(&commit),
            &rewrite.new_description,
            commit_description(&commit),
        );
        if parents.len() == 0 {
            return Err(
                JjError::InvalidArgument {
                    message: String::from_str("The root commit cannot be rewritten"),
                },
            );
        }
        let builder = builder_description(
            builder_parents(rewrite_builder(tx, &commit), parents.clone()),
            description.as_str(),
        );
        match builder_write(builder) {
            Ok(c) => FfiCommit::from_written(&c, &parents, &description, None),
            Err(e) => Err(backend_error(&e)),
        }
    }

    /// A successor of a commit with a new description.
    pub fn update_description(&mut self, commit_id: &FfiCommitId, new_description: String) -> (r:
        Result<FfiCommit, JjError>)
        ensures
            final(self).is_active() == active_after(old(self).is_active(), TxOp::Work),
            !old(self).is_active() ==> r is Err && is_finalized_error(r->Err_0),
            old(self).is_active() && (!is_hex_bytes_text(commit_id.hex@) || names_root(*commit_id))
                ==> r is Err && r->Err_0 is InvalidArgument,
            r is Ok ==> r->Ok_0.description@ == new_description@,
    {
        let rewrite = FfiRewriteCommit {
            commit_id: FfiCommitId { hex: commit_id.hex.clone() },
            new_description: Some(new_description),
            new_parent_ids: None,
        };
        self.rewrite_commit(rewrite)
    }

    /// Records a commit as abandoned; its descendants move onto its parents
    /// when the transaction is committed. The root commit cannot be abandoned,
    /// and an id that the store does not hold is an InvalidArgument.
    pub fn abandon_commit(&mut self, commit_id: &FfiCommitId) -> (r: Result<(), JjError>)
        ensures
            final(self).is_active() == active_after(old(self).is_active(), TxOp::Work),
            !old(self).is_active() ==> r is Err && is_finalized_error(r->Err_0),
            old(self).is_active() && (!is_hex_bytes_text(commit_id.hex@) || names_root(*commit_id))
                ==> r is Err && r->Err_0 is InvalidArgument,
            old(self).is_active() && r is Err ==> r->Err_0 is InvalidArgument || r->Err_0 is Backend,
    {
        let tx = match &mut self.slot {
            Some(tx) => tx,
            None => return Err(finalized_error()),
        };
        let id = match commit_id.to_bytes("Invalid commit ID: ") {
            Ok(b) => b,
            Err(e) => return Err(e),
        };
        if id.len() == 0 {
            return Err(
                JjError::InvalidArgument { message: String::from_str("An empty commit ID names no commit") },
            );
        }
        if store::is_all_zero(&id) {
            return Err(
                JjError::InvalidArgument {
                    message: String::from_str("The root commit cannot be abandoned"),
                },
            );
        }
        let commit = match lookup_commit(tx, &id) {
            Ok(c) => c,
            Err(e) => return Err(missing_or_failed(&e, "Commit not found: ")),
        };
        let parents = commit_parent_id_bytes(&commit);
        record_abandoned(&mut tx.tx, &id, &parents);
        Ok(())
    }

    /// Ends the transaction and writes what it did, labelled with
    /// `description`. Whatever the outcome, the transaction is finalized.
    pub fn commit(&mut self, description: String) -> (r: Result<FfiReadonlyRepo, JjError>)
        ensures
            final(self).is_active() == active_after(old(self).is_active(), TxOp::Finalize),
            !old(self).is_active() ==> r is Err && is_finalized_error(r->Err_0),
            r is Err && !is_finalized_error(r->Err_0) ==> r->Err_0 is Transaction,
            old(self).is_active() ==> r is Ok || r->Err_0 is Transaction,
    {
        commit_slot(&mut self.slot, description.as_str())
    }

    /// Ends the transaction and drops what it did.
    pub fn discard(&mut self) -> (r: Result<(), JjError>)
        ensures
            final(self).is_active() == active_after(old(self).is_active(), TxOp::Finalize),
            r is Ok <==> old(self).is_active(),
            r is Err ==> is_finalized_error(r->Err_0),
    {
        discard_slot(&mut self.slot)
    }

    /// Has anything been created, rewritten or abandoned since the start?
    pub fn has_changes(&self) -> (r: Result<bool, JjError>)
        ensures
            r is Err <==> !self.is_active(),
            r is Err ==> is_finalized_error(r->Err_0),
    {
        match &self.slot {
            Some(tx) => Ok(repo_has_changes(&tx.tx)),
            None => Err(finalized_error()),
        }
    }
}

/// Are the two byte strings equal?
pub fn bytes_equal(a: &Vec<u8>, b: &Vec<u8>) -> (r: bool)
    ensures
        r == (a@ == b@),
{
    if a.len() != b.len() {
        return false;
    }
    let mut i: usize = 0;
    while i < a.len()
        invariant
            i <= a.len(),
            a.len() == b.len(),
            forall|j: int| 0 <= j < i ==> a[j] == b[j],
        decreases a.len() - i,
    {
        if a[i] != b[i] {
            return false;
        }
        i = i + 1;
    }
    assert(a@ =~= b@);
    true
}

} // verus!
