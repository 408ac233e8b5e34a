//! A read-only view of a repository at one operation: lookup of commits and of
//! id prefixes, and the start of transactions.
use vstd::prelude::*;
use std::sync::Arc;
use jj_lib::backend::ChangeId;
use jj_lib::index::IndexError;
use jj_lib::object_id::{HexPrefix, ObjectId, PrefixResolution};
use jj_lib::repo::{ReadonlyRepo, Repo};
use jj_lib::transaction::Transaction;
use crate::commit::FfiCommit;
use crate::error::{JjError, joined};
use crate::hexcode::{
    hex_decoded, hex_of, is_hex_bytes_text, is_lower_hex_text, lemma_fold_lower,
    lemma_hex_of_is_lower, text_has_hex_prefix, is_hex_text, is_reverse_hex_bytes_text,
    starts_with_hex_prefix,
};
use crate::ids::{FfiChangeId, FfiCommitId};
use crate::transaction::FfiTransaction;
use crate::commit::commit_ids_from_bytes;
use crate::store;
use crate::revset::revset_failure;

verus! {

#[verifier::external_type_specification]
#[verifier::external_body]
pub struct ExReadonlyRepo(ReadonlyRepo);

#[verifier::external_type_specification]
#[verifier::external_body]
pub struct ExHexPrefix(HexPrefix);

#[verifier::external_type_specification]
#[verifier::external_body]
pub struct ExIndexError(IndexError);

/// What the index answers for a commit id prefix.
#[derive(Debug, Clone)]
pub enum PrefixMatch {
    NoMatch,
    /// The bytes of the one commit id that has the prefix.
    SingleMatch(Vec<u8>),
    AmbiguousMatch,
}

/// Relies on `HexPrefix::try_from_hex` of jj-lib: any run of hex digits of
/// either case, of any length, is a prefix; nothing else is.
#[verifier::external_body]
fn hex_prefix(text: &str) -> (r: Option<HexPrefix>)
    ensures
        r is Some <==> is_hex_text(text@),
{
    HexPrefix::try_from_hex(text)
}

/// Relies on `Index::resolve_commit_id_prefix` of jj-lib.
#[verifier::external_body]
fn index_resolve_prefix(repo: &Arc<ReadonlyRepo>, prefix: &HexPrefix) -> Result<PrefixMatch, IndexError> {
    match repo.index().resolve_commit_id_prefix(prefix) {
        Ok(PrefixResolution::NoMatch) => Ok(PrefixMatch::NoMatch),
        Ok(PrefixResolution::SingleMatch(id)) => Ok(PrefixMatch::SingleMatch(id.to_bytes())),
        Ok(PrefixResolution::AmbiguousMatch) => Ok(PrefixMatch::AmbiguousMatch),
        Err(e) => Err(e),
    }
}

/// Relies on `Repo::resolve_change_id` of jj-lib: the bytes of the visible
/// commits of a change, or `None` where there are none.
#[verifier::external_body]
fn index_resolve_change(repo: &Arc<ReadonlyRepo>, id: &Vec<u8>) -> Result<Option<Vec<Vec<u8>>>, IndexError> {
    match repo.resolve_change_id(&ChangeId::new(id.clone())) {
        Ok(Some(ids)) => Ok(Some(ids.iter().map(|c| c.to_bytes()).collect())),
        Ok(None) => Ok(None),
        Err(e) => Err(e),
    }
}

/// Relies on `ReadonlyRepo::settings` of jj-lib.
#[verifier::external_body]
fn repo_settings(repo: &Arc<ReadonlyRepo>) -> &jj_lib::settings::UserSettings {
    repo.settings()
}

/// Relies on `ReadonlyRepo::start_transaction` of jj-lib.
#[verifier::external_body]
fn begin_transaction(repo: &Arc<ReadonlyRepo>) -> Transaction {
    repo.start_transaction()
}

/// The text of the root commit's id: hex of zero bytes.
pub open spec fn is_root_text(t: Seq<char>) -> bool {
    exists|b: Seq<u8>| store::all_zero(b) && t == hex_of(b)
}

/// Is `id` a commit id that begins with `prefix`, hex letters compared without case?
pub open spec fn has_hex_prefix(id: FfiCommitId, prefix: Seq<char>) -> bool {
    text_has_hex_prefix(id.hex@, prefix)
}

/// The answer to a prefix lookup, given what the index found: the one match,
/// CommitNotFound for none, InvalidArgument for several. A match that does not
/// begin with the prefix is refused as Internal.
pub fn prefix_outcome(prefix: &str, found: PrefixMatch) -> (r: Result<Vec<FfiCommitId>, JjError>)
    ensures
        found is NoMatch ==> (r matches Err(JjError::CommitNotFound { id }) && id@ == prefix@),
        found is AmbiguousMatch ==> (r matches Err(JjError::InvalidArgument { message })
            && message@ == "Ambiguous commit prefix: "@ + prefix@),
        found matches PrefixMatch::SingleMatch(b) ==> if text_has_hex_prefix(hex_of(b@), prefix@) {
            r is Ok && r->Ok_0.len() == 1 && r->Ok_0[0].hex@ == hex_of(b@)
        } else {
            r is Err && r->Err_0 is Internal
        },
        r is Ok ==> r->Ok_0.len() == 1 && has_hex_prefix(r->Ok_0[0], prefix@),
        r is Ok ==> is_lower_hex_text(r->Ok_0[0].hex@),
{
    match found {
        PrefixMatch::NoMatch => Err(JjError::CommitNotFound { id: String::from_str(prefix) }),
        PrefixMatch::SingleMatch(b) => {
            let id = FfiCommitId::from_bytes(&b);
            proof {
                lemma_hex_of_is_lower(b@);
            }
            if starts_with_hex_prefix(id.hex.as_str(), prefix) {
                let mut ids: Vec<FfiCommitId> = Vec::new();
                ids.push(id);
                Ok(ids)
            } else {
                Err(
                    JjError::Internal {
                        message: joined("Index returned a commit outside the prefix ", prefix),
                    },
                )
            }
        },
        PrefixMatch::AmbiguousMatch => Err(
            JjError::InvalidArgument { message: joined("Ambiguous commit prefix: ", prefix) },
        ),
    }
}

/// The answer to a change id lookup, given what the index found: every commit
/// of the change, or CommitNotFound where there is none.
pub fn change_outcome(change_id: &FfiChangeId, found: Option<Vec<Vec<u8>>>) -> (r: Result<
    Vec<FfiCommitId>,
    JjError,
>)
    ensures
        (found is None || found->Some_0.len() == 0) ==> (r matches Err(
            JjError::CommitNotFound { id },
        ) && id@ == change_id.hex@),
        found is Some && found->Some_0.len() > 0 ==> r is Ok && r->Ok_0.len()
            == found->Some_0.len() && forall|i: int|
            0 <= i < found->Some_0.len() ==> #[trigger] r->Ok_0[i].hex@ == hex_of(
                found->Some_0[i]@,
            ),
{
    match found {
        Some(ids) => {
            if ids.len() == 0 {
                Err(JjError::CommitNotFound { id: change_id.hex.clone() })
            } else {
                Ok(commit_ids_from_bytes(&ids))
            }
        },
        None => Err(JjError::CommitNotFound { id: change_id.hex.clone() }),
    }
}

/// A read-only repository at one operation.
pub struct FfiReadonlyRepo {
    inner: Arc<ReadonlyRepo>,
}

impl FfiReadonlyRepo {
    pub fn new(repo: Arc<ReadonlyRepo>) -> (r: Self) {
        FfiReadonlyRepo { inner: repo }
    }

    pub fn inner(&self) -> &Arc<ReadonlyRepo> {
        &self.inner
    }

    /// The commit of the given id.
    pub fn get_commit(&self, commit_id: &FfiCommitId) -> (r: Result<FfiCommit, JjError>)
        ensures
            !is_hex_bytes_text(commit_id.hex@) ==> r is Err && r->Err_0 is InvalidArgument,
            r is Err && is_hex_bytes_text(commit_id.hex@) ==> r->Err_0 is Backend
                || r->Err_0 is CommitNotFound,
            r matches Err(JjError::CommitNotFound { id }) ==> id@ == commit_id.hex@,
            r is Ok ==> r->Ok_0.id.hex@ == hex_of(hex_decoded(commit_id.hex@)),
    {
        let id = match commit_id.to_bytes("Invalid commit ID: ") {
            Ok(b) => b,
            Err(e) => return Err(e),
        };
        match store::get_commit(store::repo_store(&self.inner), &id) {
            Ok(c) => Ok(FfiCommit::from_stored(&id, &c)),
            Err(e) => {
                if store::is_unknown_id(&e) {
                    Err(JjError::CommitNotFound { id: commit_id.hex.clone() })
                } else {
                    Err(JjError::Backend { message: e.to_string() })
                }
            },
        }
    }

    /// The root commit, ancestor of every commit; its id is all zero bytes.
    pub fn root_commit(&self) -> (r: FfiCommit)
        ensures
            is_root_text(r.id.hex@),
    {
        let store = store::repo_store(&self.inner);
        let id = store::root_commit_id(store);
        FfiCommit::from_stored(&id, &store::root_commit(store))
    }

    pub fn root_commit_id(&self) -> (r: FfiCommitId)
        ensures
            is_root_text(r.hex@),
            is_hex_bytes_text(r.hex@),
    {
        let b = store::root_commit_id(store::repo_store(&self.inner));
        let r = FfiCommitId::from_bytes(&b);
        proof {
            crate::hexcode::lemma_hex_of_is_hex(b@);
        }
        r
    }

    pub fn root_change_id(&self) -> (r: FfiChangeId)
        ensures
            is_reverse_hex_bytes_text(r.hex@),
    {
        let b = store::root_change_id(store::repo_store(&self.inner));
        let r = FfiChangeId::from_bytes(&b);
        proof {
            crate::hexcode::lemma_reverse_hex_of_is_reverse_hex(b@);
        }
        r
    }

    /// Every visible commit of a change; there may be more than one.
    pub fn resolve_change_id(&self, change_id: &FfiChangeId) -> (r: Result<Vec<FfiCommitId>, JjError>)
        ensures
            !is_reverse_hex_bytes_text(change_id.hex@) ==> r is Err && r->Err_0 is InvalidArgument,
            r is Ok ==> r->Ok_0.len() > 0,
    {
        let id = match change_id.to_bytes() {
            Ok(b) => b,
            Err(e) => return Err(e),
        };
        match index_resolve_change(&self.inner, &id) {
            Ok(found) => change_outcome(change_id, found),
            Err(e) => Err(JjError::Internal { message: joined("Index error: ", e.to_string().as_str()) }),
        }
    }

    /// The one commit whose id begins with `prefix`. An empty prefix, and one
    /// that holds a character other than a hex digit, is an InvalidArgument;
    /// no match is CommitNotFound; several are an InvalidArgument.
    pub fn resolve_commit_prefix(&self, prefix: &str) -> (r: Result<Vec<FfiCommitId>, JjError>)
        ensures
            (prefix@.len() == 0 || !is_hex_text(prefix@)) ==> r is Err && r->Err_0 is InvalidArgument,
            r is Ok ==> r->Ok_0.len() == 1 && has_hex_prefix(r->Ok_0[0], prefix@),
            r is Ok ==> is_lower_hex_text(r->Ok_0[0].hex@),
            r is Ok && is_lower_hex_text(prefix@) ==> prefix@.len() <= r->Ok_0[0].hex@.len()
                && r->Ok_0[0].hex@.subrange(0, prefix@.len() as int) == prefix@,
            r matches Err(JjError::CommitNotFound { id }) ==> id@ == prefix@,
    {
        if prefix.unicode_len() == 0 {
            return Err(
                JjError::InvalidArgument {
                    message: String::from_str("An empty commit prefix matches every commit"),
                },
            );
        }
        let hp = match hex_prefix(prefix) {
            Some(p) => p,
            None => return Err(
                JjError::InvalidArgument { message: joined("Invalid hex prefix: ", prefix) },
            ),
        };
        match index_resolve_prefix(&self.inner, &hp) {
            Ok(found) => {
                let r = prefix_outcome(prefix, found);
                proof {
                    if r is Ok && is_lower_hex_text(prefix@) {
                        let t = r->Ok_0[0].hex@;
                        lemma_fold_lower(t);
                        lemma_fold_lower(prefix@);
                    }
                }
                r
            },
            Err(e) => Err(JjError::Internal { message: joined("Index error: ", e.to_string().as_str()) }),
        }
    }

    /// The ids of the commits that a revset expression selects.
    pub fn evaluate_revset(&self, revset_str: String, user_email: String) -> (r: Result<
        Vec<FfiCommitId>,
        JjError,
    >)
        ensures
            r is Err ==> r->Err_0 is Revset && revset_failure(r->Err_0),
    {
        crate::revset::evaluate_revset(&self.inner, revset_str.as_str(), user_email.as_str())
    }

    /// The commits that a revset expression selects.
    pub fn evaluate_revset_to_commits(&self, revset_str: String, user_email: String) -> (r: Result<
        Vec<FfiCommit>,
        JjError,
    >)
        ensures
            r is Err ==> r->Err_0 is Revset && revset_failure(r->Err_0),
    {
        crate::revset::evaluate_revset_to_commits(&self.inner, revset_str.as_str(), user_email.as_str())
    }

    /// How many commits a revset expression selects.
    pub fn count_revset(&self, revset_str: String, user_email: String) -> (r: Result<u64, JjError>)
        ensures
            r is Err ==> r->Err_0 is Revset && revset_failure(r->Err_0),
    {
        crate::revset::count_revset(&self.inner, revset_str.as_str(), user_email.as_str())
    }

    /// A transaction that can also synchronize with Git; a Git error where the
    /// settings do not describe Git.
    pub fn start_git_transaction(&self) -> (r: Result<crate::git::FfiGitTransaction, JjError>)
        ensures
            r is Ok ==> r->Ok_0.is_active(),
            r is Err ==> r->Err_0 is Git || r->Err_0 is Internal,
    {
        let git_settings = match crate::git::git_settings_of(repo_settings(&self.inner)) {
            Ok(s) => s,
            Err(e) => return Err(
                JjError::Git {
                    message: joined("Failed to load Git settings: ", e.to_string().as_str()),
                },
            ),
        };
        crate::git::FfiGitTransaction::new(begin_transaction(&self.inner), git_settings)
    }

    /// A transaction on this repository, active until committed or discarded.
    pub fn start_transaction(&self) -> (r: Result<FfiTransaction, JjError>)
        ensures
            r is Ok ==> r->Ok_0.is_active(),
            r is Err ==> r->Err_0 is Internal,
    {
        FfiTransaction::new(begin_transaction(&self.inner))
    }
}

} // verus!
