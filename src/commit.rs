//! Commits as values, and the inputs of the operations that write them.
use vstd::prelude::*;
use jj_lib::backend::Signature;
use jj_lib::commit::Commit;
use jj_lib::object_id::ObjectId;
use crate::hexcode::{hex_of, reverse_hex_of};
use crate::ids::{FfiChangeId, FfiCommitId};
use crate::signature::{FfiSignature, FfiTimestamp};

verus! {

#[verifier::external_type_specification]
#[verifier::external_body]
pub struct ExCommit(Commit);

/// A commit as it stands in the store.
#[derive(Debug, Clone)]
pub struct FfiCommit {
    pub id: FfiCommitId,
    pub change_id: FfiChangeId,
    pub description: String,
    pub author: FfiSignature,
    pub committer: FfiSignature,
    pub parent_ids: Vec<FfiCommitId>,
    pub is_signed: bool,
}

/// What a new commit is made of.
#[derive(Debug, Clone)]
pub struct FfiNewCommit {
    pub parent_ids: Vec<FfiCommitId>,
    pub description: String,
    /// With `author_email`, names the author; the settings' user otherwise.
    pub author_name: Option<String>,
    pub author_email: Option<String>,
    /// The author's time; now, where it is not given.
    pub author_timestamp: Option<FfiTimestamp>,
}

/// What changes when a commit is rewritten; a field that is `None` is kept.
#[derive(Debug, Clone)]
pub struct FfiRewriteCommit {
    pub commit_id: FfiCommitId,
    pub new_description: Option<String>,
    pub new_parent_ids: Option<Vec<FfiCommitId>>,
}

impl FfiNewCommit {
    /// A new commit on the given parents, by the settings' user, at the time it is written.
    pub fn new(parent_ids: Vec<FfiCommitId>, description: String) -> (r: Self)
        ensures
            r.parent_ids == parent_ids,
            r.description == description,
            r.author_name is None,
            r.author_email is None,
            r.author_timestamp is None,
    {
        FfiNewCommit {
            parent_ids,
            description,
            author_name: None,
            author_email: None,
            author_timestamp: None,
        }
    }
}

/// Relies on `Commit::id` of jj-lib: the bytes of the commit's id.
#[verifier::external_body]
fn commit_id_bytes(c: &Commit) -> Vec<u8> {
    c.id().to_bytes()
}

/// Relies on `Commit::change_id` of jj-lib: the bytes of the commit's change id.
#[verifier::external_body]
fn commit_change_id_bytes(c: &Commit) -> Vec<u8> {
    c.change_id().to_bytes()
}

/// Relies on `Commit::description` of jj-lib.
#[verifier::external_body]
pub(crate) fn commit_description(c: &Commit) -> String {
    c.description().to_string()
}

/// Relies on `Commit::author` of jj-lib.
#[verifier::external_body]
fn commit_author(c: &Commit) -> Signature {
    c.author().clone()
}

/// Relies on `Commit::committer` of jj-lib.
#[verifier::external_body]
fn commit_committer(c: &Commit) -> Signature {
    c.committer().clone()
}

/// Relies on `Commit::parent_ids` of jj-lib: the bytes of each parent's id, in order.
#[verifier::external_body]
pub(crate) fn commit_parent_id_bytes(c: &Commit) -> Vec<Vec<u8>> {
    c.parent_ids().iter().map(|id| id.to_bytes()).collect()
}

/// Relies on `Commit::is_signed` of jj-lib.
#[verifier::external_body]
fn commit_is_signed(c: &Commit) -> bool {
    c.is_signed()
}

/// The ids of the given byte strings, in order.
pub fn commit_ids_from_bytes(ids: &Vec<Vec<u8>>) -> (r: Vec<FfiCommitId>)
    ensures
        r.len() == ids.len(),
        forall|i: int| 0 <= i < ids.len() ==> #[trigger] r[i].hex@ == hex_of(ids[i]@),
{
    let mut r: Vec<FfiCommitId> = Vec::new();
    let mut i: usize = 0;
    while i < ids.len()
        invariant
            i <= ids.len(),
            r.len() == i,
            forall|j: int| 0 <= j < i ==> #[trigger] r[j].hex@ == hex_of(ids[j]@),
        decreases ids.len() - i,
    {
        r.push(FfiCommitId::from_bytes(&ids[i]));
        i = i + 1;
    }
    r
}

/// Are the two lists of byte strings equal, element by element?
pub fn id_lists_equal(a: &Vec<Vec<u8>>, b: &Vec<Vec<u8>>) -> (r: bool)
    ensures
        r == (a.len() == b.len() && forall|i: int| 0 <= i < a.len() ==> #[trigger] a[i]@ == b[i]@),
{
    if a.len() != b.len() {
        return false;
    }
    let mut i: usize = 0;
    while i < a.len()
        invariant
            i <= a.len(),
            a.len() == b.len(),
            forall|j: int| 0 <= j < i ==> #[trigger] a[j]@ == b[j]@,
        decreases a.len() - i,
    {
        if !crate::transaction::bytes_equal(&a[i], &b[i]) {
            return false;
        }
        i = i + 1;
    }
    true
}

impl FfiCommit {
    /// The commit just written, read back from the engine; an Internal error
    /// where it does not have the parents and the description it was written with.
    pub fn from_written(
        c: &Commit,
        parents: &Vec<Vec<u8>>,
        description: &String,
        author: Option<&FfiSignature>,
    ) -> (r: Result<Self, crate::error::JjError>)
        ensures
            r is Ok && author is Some ==> r->Ok_0.author.name@ == author->Some_0.name@
                && r->Ok_0.author.email@ == author->Some_0.email@ && r->Ok_0.author.timestamp
                == author->Some_0.timestamp,
            r is Ok ==> r->Ok_0.parent_ids.len() == parents.len() && r->Ok_0.description@
                == description@ && forall|i: int|
                0 <= i < parents.len() ==> #[trigger] r->Ok_0.parent_ids[i].hex@ == hex_of(
                    parents[i]@,
                ),
            r is Err ==> r->Err_0 is Internal,
    {
        let written_parents = commit_parent_id_bytes(c);
        let written_description = commit_description(c);
        if !id_lists_equal(&written_parents, parents) || !(written_description == *description) {
            return Err(
                crate::error::JjError::Internal {
                    message: String::from_str("The engine wrote another commit than was asked"),
                },
            );
        }
        let written_author = commit_author(c);
        if let Some(a) = author {
            if !(written_author.name == a.name) || !(written_author.email == a.email)
                || written_author.timestamp.timestamp.0 != a.timestamp.millis_since_epoch
                || written_author.timestamp.tz_offset != a.timestamp.tz_offset_minutes {
                return Err(
                    crate::error::JjError::Internal {
                        message: String::from_str("The engine wrote another author than was asked"),
                    },
                );
            }
        }
        let id = commit_id_bytes(c);
        let change_id = commit_change_id_bytes(c);
        let committer = commit_committer(c);
        Ok(
            FfiCommit::from_parts(
                &id,
                &change_id,
                written_description,
                &written_author,
                &committer,
                &written_parents,
                commit_is_signed(c),
            ),
        )
    }

    /// A commit of the given parts.
    pub fn from_parts(
        id: &Vec<u8>,
        change_id: &Vec<u8>,
        description: String,
        author: &Signature,
        committer: &Signature,
        parent_ids: &Vec<Vec<u8>>,
        is_signed: bool,
    ) -> (r: Self)
        ensures
            r.id.hex@ == hex_of(id@),
            r.change_id.hex@ == reverse_hex_of(change_id@),
            r.description == description,
            r.author.name@ == author.name@,
            r.author.email@ == author.email@,
            r.author.timestamp.millis_since_epoch == author.timestamp.timestamp.0,
            r.author.timestamp.tz_offset_minutes == author.timestamp.tz_offset,
            r.committer.name@ == committer.name@,
            r.committer.email@ == committer.email@,
            r.committer.timestamp.millis_since_epoch == committer.timestamp.timestamp.0,
            r.committer.timestamp.tz_offset_minutes == committer.timestamp.tz_offset,
            r.parent_ids.len() == parent_ids.len(),
            forall|i: int|
                0 <= i < parent_ids.len() ==> #[trigger] r.parent_ids[i].hex@ == hex_of(
                    parent_ids[i]@,
                ),
            r.is_signed == is_signed,
    {
        FfiCommit {
            id: FfiCommitId::from_bytes(id),
            change_id: FfiChangeId::from_bytes(change_id),
            description,
            author: FfiSignature::from_engine(author),
            committer: FfiSignature::from_engine(committer),
            parent_ids: commit_ids_from_bytes(parent_ids),
            is_signed,
        }
    }

    /// The commit that the store gave for the id `id`; the store gives each
    /// commit under its own id.
    pub fn from_stored(id: &Vec<u8>, c: &Commit) -> (r: Self)
        ensures
            r.id.hex@ == hex_of(id@),
    {
        let change_id = commit_change_id_bytes(c);
        let author = commit_author(c);
        let committer = commit_committer(c);
        let parents = commit_parent_id_bytes(c);
        FfiCommit::from_parts(
            id,
            &change_id,
            commit_description(c),
            &author,
            &committer,
            &parents,
            commit_is_signed(c),
        )
    }

    /// The commit as the engine stores it.
    pub fn from_commit(c: &Commit) -> (r: Self) {
        let id = commit_id_bytes(c);
        let change_id = commit_change_id_bytes(c);
        let author = commit_author(c);
        let committer = commit_committer(c);
        let parents = commit_parent_id_bytes(c);
        FfiCommit::from_parts(
            &id,
            &change_id,
            commit_description(c),
            &author,
            &committer,
            &parents,
            commit_is_signed(c),
        )
    }
}

} // verus!
