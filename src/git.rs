//! Synchronization with the Git repository behind a jj repository: the same
//! single-use transaction, with import, export, fetch and push.
use vstd::prelude::*;
use jj_lib::backend::CommitId;
use jj_lib::config::ConfigGetError;
use jj_lib::git::{
    self, ExpandedFetchRefSpecs, GitBranchPushTargets, GitExportError, GitFetch, GitFetchError,
    GitImportError, GitPushError, GitRefExpansionError, GitSettings,
    RemoteCallbacks, UnexpectedGitBackendError,
};
use jj_lib::object_id::ObjectId;
use jj_lib::ref_name::{RefName, RemoteName};
use jj_lib::refs::BookmarkPushUpdate;
use jj_lib::repo::Repo;
use jj_lib::settings::UserSettings;
use jj_lib::str_util::{StringExpression, StringPattern};
use jj_lib::transaction::Transaction;
use crate::error::{JjError, finalized_error, is_finalized_error, joined};
use crate::ids::FfiCommitId;
use crate::repo::FfiReadonlyRepo;
use crate::transaction::{TxOp, active_after};

verus! {

#[verifier::external_type_specification]
#[verifier::external_body]
pub struct ExGitSettings(GitSettings);

#[verifier::external_type_specification]
#[verifier::external_body]
pub struct ExGitImportError(GitImportError);

#[verifier::external_type_specification]
#[verifier::external_body]
pub struct ExGitExportError(GitExportError);

#[verifier::external_type_specification]
#[verifier::external_body]
pub struct ExGitFetchError(GitFetchError);

#[verifier::external_type_specification]
#[verifier::external_body]
pub struct ExGitPushError(GitPushError);

#[verifier::external_type_specification]
#[verifier::external_body]
pub struct ExGitRefExpansionError(GitRefExpansionError);

#[verifier::external_type_specification]
#[verifier::external_body]
pub struct ExUnexpectedGitBackendError(UnexpectedGitBackendError);

#[verifier::external_type_specification]
#[verifier::external_body]
pub struct ExExpandedFetchRefSpecs(ExpandedFetchRefSpecs);

#[verifier::external_type_specification]
#[verifier::external_body]
pub struct ExGitFetch<'a>(GitFetch<'a>);

#[verifier::external_type_specification]
#[verifier::external_body]
pub struct ExStringExpression(StringExpression);

#[verifier::external_type_specification]
#[verifier::external_body]
pub struct ExStringPattern(StringPattern);

/// What an import changed.
#[derive(Debug, Clone)]
pub struct FfiGitImportStats {
    pub abandoned_commits_count: u64,
    pub changed_remote_bookmarks_count: u64,
    pub changed_remote_tags_count: u64,
    pub failed_refs_count: u64,
}

/// What an export could not write.
#[derive(Debug, Clone)]
pub struct FfiGitExportStats {
    pub failed_bookmarks_count: u64,
    pub failed_tags_count: u64,
}

/// What a push did.
#[derive(Debug, Clone)]
pub struct FfiGitPushStats {
    pub pushed_count: u64,
    /// Refs refused because the remote was not where it was expected.
    pub rejected_count: u64,
    /// Refs refused by the remote itself.
    pub remote_rejected_count: u64,
    pub all_ok: bool,
}

/// The sizes of the lists of an import's statistics.
pub struct ImportCounts {
    pub abandoned: usize,
    pub changed_bookmarks: usize,
    pub changed_tags: usize,
    pub failed_refs: usize,
}

/// The sizes of the lists of a push's statistics.
pub struct PushCounts {
    pub pushed: usize,
    pub rejected: usize,
    pub remote_rejected: usize,
}

impl FfiGitImportStats {
    pub fn from_counts(c: &ImportCounts) -> (r: Self)
        ensures
            r.abandoned_commits_count == c.abandoned as u64,
            r.changed_remote_bookmarks_count == c.changed_bookmarks as u64,
            r.changed_remote_tags_count == c.changed_tags as u64,
            r.failed_refs_count == c.failed_refs as u64,
    {
        FfiGitImportStats {
            abandoned_commits_count: c.abandoned as u64,
            changed_remote_bookmarks_count: c.changed_bookmarks as u64,
            changed_remote_tags_count: c.changed_tags as u64,
            failed_refs_count: c.failed_refs as u64,
        }
    }
}

impl FfiGitPushStats {
    /// A push is all right when the remote refused nothing.
    pub fn from_counts(c: &PushCounts) -> (r: Self)
        ensures
            r.pushed_count == c.pushed as u64,
            r.rejected_count == c.rejected as u64,
            r.remote_rejected_count == c.remote_rejected as u64,
            r.all_ok == (c.rejected == 0 && c.remote_rejected == 0),
    {
        FfiGitPushStats {
            pushed_count: c.pushed as u64,
            rejected_count: c.rejected as u64,
            remote_rejected_count: c.remote_rejected as u64,
            all_ok: c.rejected == 0 && c.remote_rejected == 0,
        }
    }
}

/// The commits that an import abandoned are not kept with its statistics, so
/// none can be listed.
pub fn get_abandoned_commits_from_import(_stats: &FfiGitImportStats) -> (r: Vec<FfiCommitId>)
    ensures
        r.len() == 0,
{
    Vec::new()
}

/// How one branch pattern of a fetch is read.
#[derive(Debug, Clone, PartialEq, Eq)]
pub enum BranchPattern {
    /// The name itself.
    Exact(String),
    /// A glob, for a pattern with a `*` in it.
    Glob(String),
}

/// Which branches a fetch asks for.
#[derive(Debug, Clone, PartialEq, Eq)]
pub enum BranchSelection {
    All,
    /// The union of the patterns.
    Union(Vec<BranchPattern>),
}

pub open spec fn has_star(s: Seq<char>) -> bool {
    exists|i: int| 0 <= i < s.len() && s[i] == '*'
}

pub open spec fn pattern_of(s: Seq<char>, p: BranchPattern) -> bool {
    if has_star(s) {
        p matches BranchPattern::Glob(t) && t@ == s
    } else {
        p matches BranchPattern::Exact(t) && t@ == s
    }
}

/// Does the text hold a `*`?
pub fn contains_star(s: &str) -> (r: bool)
    ensures
        r == has_star(s@),
{
    let n = s.unicode_len();
    let mut i: usize = 0;
    while i < n
        invariant
            i <= n,
            n == s@.len(),
            forall|j: int| 0 <= j < i ==> s@[j] != '*',
        decreases n - i,
    {
        if s.get_char(i) == '*' {
            return true;
        }
        i = i + 1;
    }
    false
}

/// A pattern with a `*` is a glob; any other is an exact name.
pub fn classify_branch_pattern(p: &str) -> (r: BranchPattern)
    ensures
        pattern_of(p@, r),
{
    if contains_star(p) {
        BranchPattern::Glob(String::from_str(p))
    } else {
        BranchPattern::Exact(String::from_str(p))
    }
}

/// No patterns select every branch; otherwise the union of the patterns, in order.
pub fn branch_selection(patterns: &Vec<String>) -> (r: BranchSelection)
    ensures
        patterns.len() == 0 <==> r is All,
        r matches BranchSelection::Union(ps) ==> ps.len() == patterns.len() && forall|i: int|
            0 <= i < ps.len() ==> pattern_of(patterns[i]@, #[trigger] ps[i]),
{
    if patterns.len() == 0 {
        return BranchSelection::All;
    }
    let mut out: Vec<BranchPattern> = Vec::new();
    let mut i: usize = 0;
    while i < patterns.len()
        invariant
            i <= patterns.len(),
            out.len() == i,
            forall|j: int| 0 <= j < i ==> pattern_of(patterns[j]@, #[trigger] out[j]),
        decreases patterns.len() - i,
    {
        out.push(classify_branch_pattern(patterns[i].as_str()));
        i = i + 1;
    }
    BranchSelection::Union(out)
}

/// Relies on `StringExpression::all` of jj-lib.
#[verifier::external_body]
fn all_branches() -> StringExpression {
    StringExpression::all()
}

/// Relies on `StringExpression::exact` of jj-lib.
#[verifier::external_body]
fn exact_branch(name: &str) -> StringExpression {
    StringExpression::exact(name)
}

/// Relies on `StringPattern::glob` of jj-lib: `None` where the glob does not compile.
#[verifier::external_body]
fn glob_pattern(text: &str) -> Option<StringPattern> {
    StringPattern::glob(text).ok()
}

/// Relies on `StringExpression::pattern` of jj-lib.
#[verifier::external_body]
fn pattern_branch(p: StringPattern) -> StringExpression {
    StringExpression::pattern(p)
}

/// Relies on `StringExpression::union_all` of jj-lib.
#[verifier::external_body]
fn union_of_branches(exprs: Vec<StringExpression>) -> StringExpression {
    StringExpression::union_all(exprs)
}

/// The engine's expression of a selection; a glob that does not compile is
/// matched as an exact name.
pub fn branch_expression(sel: &BranchSelection) -> StringExpression {
    match sel {
        BranchSelection::All => all_branches(),
        BranchSelection::Union(ps) => {
            let mut exprs: Vec<StringExpression> = Vec::new();
            let mut i: usize = 0;
            while i < ps.len()
                decreases ps.len() - i,
            {
                let e = match &ps[i] {
                    BranchPattern::Exact(t) => exact_branch(t.as_str()),
                    BranchPattern::Glob(t) => match glob_pattern(t.as_str()) {
                        Some(p) => pattern_branch(p),
                        None => exact_branch(t.as_str()),
                    },
                };
                exprs.push(e);
                i = i + 1;
            }
            union_of_branches(exprs)
        },
    }
}

/// Relies on `GitSettings::from_settings` of jj-lib.
#[verifier::external_body]
pub(crate) fn git_settings_of(settings: &UserSettings) -> Result<GitSettings, ConfigGetError> {
    GitSettings::from_settings(settings)
}

/// Relies on `git::import_refs` of jj-lib: the sizes of the statistics' lists.
#[verifier::external_body]
fn import_refs_counts(tx: &mut Transaction, settings: &GitSettings) -> Result<ImportCounts, GitImportError> {
    match git::import_refs(tx.repo_mut(), settings) {
        Ok(s) => Ok(ImportCounts {
            abandoned: s.abandoned_commits.len(),
            changed_bookmarks: s.changed_remote_bookmarks.len(),
            changed_tags: s.changed_remote_tags.len(),
            failed_refs: s.failed_ref_names.len(),
        }),
        Err(e) => Err(e),
    }
}

/// Relies on `git::export_refs` of jj-lib: how many bookmarks and tags failed.
#[verifier::external_body]
fn export_refs_counts(tx: &mut Transaction) -> Result<(usize, usize), GitExportError> {
    git::export_refs(tx.repo_mut()).map(|s| (s.failed_bookmarks.len(), s.failed_tags.len()))
}

/// Relies on `GitFetch::new` of jj-lib.
#[verifier::external_body]
fn start_fetch<'a>(tx: &'a mut Transaction, settings: &'a GitSettings) -> Result<GitFetch<'a>, UnexpectedGitBackendError> {
    GitFetch::new(tx.repo_mut(), settings)
}

/// Relies on `git::expand_fetch_refspecs` of jj-lib.
#[verifier::external_body]
fn expand_refspecs(remote: &str, branches: StringExpression) -> Result<ExpandedFetchRefSpecs, GitRefExpansionError> {
    git::expand_fetch_refspecs(RemoteName::new(remote), branches)
}

/// Relies on `GitFetch::fetch` of jj-lib, with no callbacks, depth or tag override.
#[verifier::external_body]
fn run_fetch<'a>(f: &mut GitFetch<'a>, remote: &str, specs: ExpandedFetchRefSpecs) -> Result<(), GitFetchError> {
    f.fetch(RemoteName::new(remote), specs, RemoteCallbacks::default(), None, None)
}

/// Relies on `GitFetch::import_refs` of jj-lib: the sizes of the statistics' lists.
#[verifier::external_body]
fn fetch_import<'a>(f: &mut GitFetch<'a>) -> Result<ImportCounts, GitImportError> {
    match f.import_refs() {
        Ok(s) => Ok(ImportCounts {
            abandoned: s.abandoned_commits.len(),
            changed_bookmarks: s.changed_remote_bookmarks.len(),
            changed_tags: s.changed_remote_tags.len(),
            failed_refs: s.failed_ref_names.len(),
        }),
        Err(e) => Err(e),
    }
}

/// Relies on `View::get_local_bookmark` of jj-lib: whether the bookmark is
/// present, and its target where that is a single commit.
#[verifier::external_body]
fn local_bookmark(tx: &Transaction, name: &str) -> (bool, Option<Vec<u8>>) {
    let target = tx.repo().view().get_local_bookmark(RefName::new(name));
    (!target.is_absent(), target.as_normal().map(|id| id.to_bytes()))
}

/// Relies on `View::get_remote_bookmark` of jj-lib: the remote's target of the
/// bookmark where that is a single commit.
#[verifier::external_body]
fn remote_bookmark(tx: &Transaction, remote: &str, name: &str) -> Option<Vec<u8>> {
    let symbol = RefName::new(name).to_remote_symbol(RemoteName::new(remote));
    tx.repo().view().get_remote_bookmark(symbol).target.as_normal().map(|id| id.to_bytes())
}

/// One bookmark to push: its name, where the remote has it, where it goes.
pub struct BranchUpdate {
    pub name: String,
    pub old_target: Option<Vec<u8>>,
    pub new_target: Option<Vec<u8>>,
}

/// What the view holds for one bookmark name.
pub struct BookmarkLookup {
    /// The bookmark exists locally.
    pub present: bool,
    /// Its local target, where that is a single commit.
    pub local: Option<Vec<u8>>,
    /// The remote's target, where that is a single commit.
    pub remote: Option<Vec<u8>>,
}

/// What the view holds for each name, in order.
fn lookups_for(tx: &Transaction, remote: &str, names: &Vec<String>) -> (r: Vec<BookmarkLookup>)
    ensures
        r.len() == names.len(),
{
    let mut out: Vec<BookmarkLookup> = Vec::new();
    let mut i: usize = 0;
    while i < names.len()
        invariant
            i <= names.len(),
            out.len() == i,
        decreases names.len() - i,
    {
        let name = names[i].as_str();
        let (present, local) = local_bookmark(tx, name);
        let remote_target = remote_bookmark(tx, remote, name);
        out.push(BookmarkLookup { present, local, remote: remote_target });
        i = i + 1;
    }
    out
}

/// The update of each named bookmark, in order: from where the remote has it
/// to where it is here. A Git error exactly when some name has no local bookmark.
pub fn bookmark_updates(names: &Vec<String>, lookups: &Vec<BookmarkLookup>) -> (r: Result<
    Vec<BranchUpdate>,
    JjError,
>)
    requires
        lookups.len() == names.len(),
    ensures
        r is Err <==> exists|i: int| 0 <= i < lookups.len() && !(#[trigger] lookups[i]).present,
        r is Err ==> r->Err_0 is Git,
        r is Ok ==> r->Ok_0.len() == names.len() && forall|i: int|
            0 <= i < names.len() ==> (#[trigger] r->Ok_0[i]).name@ == names[i]@
                && target_view(r->Ok_0[i].new_target) == target_view(lookups[i].local)
                && target_view(r->Ok_0[i].old_target) == target_view(lookups[i].remote),
{
    let mut updates: Vec<BranchUpdate> = Vec::new();
    let mut i: usize = 0;
    while i < names.len()
        invariant
            i <= names.len(),
            lookups.len() == names.len(),
            updates.len() == i,
            forall|j: int| 0 <= j < i ==> (#[trigger] lookups[j]).present,
            forall|j: int|
                0 <= j < i ==> (#[trigger] updates[j]).name@ == names[j]@ && target_view(
                    updates[j].new_target,
                ) == target_view(lookups[j].local) && target_view(updates[j].old_target)
                    == target_view(lookups[j].remote),
        decreases names.len() - i,
    {
        let name = names[i].as_str();
        if !lookups[i].present {
            let mut message = joined("Branch '", name);
            message.append("' not found");
            return Err(git_error(message));
        }
        updates.push(
            BranchUpdate {
                name: String::from_str(name),
                old_target: copy_target(&lookups[i].remote),
                new_target: copy_target(&lookups[i].local),
            },
        );
        i = i + 1;
    }
    Ok(updates)
}

/// A target as bytes, where there is one.
pub open spec fn target_view(t: Option<Vec<u8>>) -> Option<Seq<u8>> {
    match t {
        Some(b) => Some(b@),
        None => None,
    }
}

/// A copy of a target.
fn copy_target(t: &Option<Vec<u8>>) -> (r: Option<Vec<u8>>)
    ensures
        target_view(r) == target_view(*t),
{
    match t {
        Some(b) => {
            let mut c: Vec<u8> = Vec::new();
            let mut i: usize = 0;
            while i < b.len()
                invariant
                    i <= b.len(),
                    c@ == b@.take(i as int),
                decreases b.len() - i,
            {
                c.push(b[i]);
                i = i + 1;
                assert(c@ =~= b@.take(i as int));
            }
            assert(c@ =~= b@);
            Some(c)
        },
        None => None,
    }
}

/// Relies on `git::push_branches` of jj-lib, with no callbacks.
#[verifier::external_body]
fn push_updates(tx: &mut Transaction, settings: &GitSettings, remote: &str, updates: Vec<BranchUpdate>) -> Result<PushCounts, GitPushError> {
    let branch_updates = updates.into_iter().map(|u| (u.name.as_str().into(), BookmarkPushUpdate {
        old_target: u.old_target.map(CommitId::new),
        new_target: u.new_target.map(CommitId::new),
    })).collect();
    git::push_branches(tx.repo_mut(), settings, RemoteName::new(remote), &GitBranchPushTargets { branch_updates }, RemoteCallbacks::default())
        .map(|s| PushCounts { pushed: s.pushed.len(), rejected: s.rejected.len(), remote_rejected: s.remote_rejected.len() })
}

fn git_error(text: String) -> (r: JjError)
    ensures
        r is Git,
{
    JjError::Git { message: text }
}

/// A transaction that also talks to Git; active until committed or discarded.
pub struct FfiGitTransaction {
    slot: Option<crate::transaction::CheckedTransaction>,
    git_settings: GitSettings,
}

impl FfiGitTransaction {
    pub closed spec fn is_active(&self) -> bool {
        self.slot is Some
    }

    /// A handle on the transaction; an Internal error where the repository's
    /// settings cannot build commits.
    pub fn new(transaction: Transaction, git_settings: GitSettings) -> (r: Result<Self, JjError>)
        ensures
            r is Ok ==> r->Ok_0.is_active(),
            r is Err ==> r->Err_0 is Internal,
    {
        match crate::transaction::checked(transaction) {
            Ok(t) => Ok(FfiGitTransaction { slot: Some(t), git_settings }),
            Err(e) => Err(e),
        }
    }

    /// Imports the refs of the Git repository into the view.
    pub fn import_refs(&mut self) -> (r: Result<FfiGitImportStats, JjError>)
        ensures
            final(self).is_active() == active_after(old(self).is_active(), TxOp::Work),
            !old(self).is_active() ==> r is Err && is_finalized_error(r->Err_0),
            r is Err && old(self).is_active() ==> r->Err_0 is Git,
    {
        let settings = &self.git_settings;
        let tx = match &mut self.slot {
            Some(ct) => &mut ct.tx,
            None => return Err(finalized_error()),
        };
        match import_refs_counts(tx, settings) {
            Ok(c) => Ok(FfiGitImportStats::from_counts(&c)),
            Err(e) => Err(git_error(e.to_string())),
        }
    }

    /// Exports the view's bookmarks and tags to the Git repository.
    pub fn export_refs(&mut self) -> (r: Result<FfiGitExportStats, JjError>)
        ensures
            final(self).is_active() == active_after(old(self).is_active(), TxOp::Work),
            !old(self).is_active() ==> r is Err && is_finalized_error(r->Err_0),
            r is Err && old(self).is_active() ==> r->Err_0 is Git,
    {
        let tx = match &mut self.slot {
            Some(ct) => &mut ct.tx,
            None => return Err(finalized_error()),
        };
        match export_refs_counts(tx) {
            Ok((bookmarks, tags)) => Ok(
                FfiGitExportStats {
                    failed_bookmarks_count: bookmarks as u64,
                    failed_tags_count: tags as u64,
                },
            ),
            Err(e) => Err(git_error(e.to_string())),
        }
    }

    /// Fetches the selected branches (every branch where none are named) from
    /// a remote and imports what came.
    pub fn fetch(&mut self, remote_name: String, branch_patterns: Vec<String>) -> (r: Result<
        FfiGitImportStats,
        JjError,
    >)
        ensures
            final(self).is_active() == active_after(old(self).is_active(), TxOp::Work),
            !old(self).is_active() ==> r is Err && is_finalized_error(r->Err_0),
            r is Err && old(self).is_active() ==> r->Err_0 is Git,
    {
        let settings = &self.git_settings;
        let tx = match &mut self.slot {
            Some(ct) => &mut ct.tx,
            None => return Err(finalized_error()),
        };
        let mut fetch = match start_fetch(tx, settings) {
            Ok(f) => f,
            Err(e) => return Err(git_error(e.to_string())),
        };
        let selection = branch_selection(&branch_patterns);
        let specs = match expand_refspecs(remote_name.as_str(), branch_expression(&selection)) {
            Ok(s) => s,
            Err(e) => return Err(git_error(e.to_string())),
        };
        if let Err(e) = run_fetch(&mut fetch, remote_name.as_str(), specs) {
            return Err(git_error(e.to_string()));
        }
        match fetch_import(&mut fetch) {
            Ok(c) => Ok(FfiGitImportStats::from_counts(&c)),
            Err(e) => Err(git_error(e.to_string())),
        }
    }

    /// Pushes the named local bookmarks to a remote. A name with no local
    /// bookmark is a Git error, and nothing is pushed.
    pub fn push_branches(&mut self, remote_name: String, branch_names: Vec<String>) -> (r: Result<
        FfiGitPushStats,
        JjError,
    >)
        ensures
            final(self).is_active() == active_after(old(self).is_active(), TxOp::Work),
            !old(self).is_active() ==> r is Err && is_finalized_error(r->Err_0),
            r is Err && old(self).is_active() ==> r->Err_0 is Git,
            r is Ok ==> r->Ok_0.all_ok == (r->Ok_0.rejected_count == 0 && r->Ok_0.remote_rejected_count
                == 0),
    {
        let settings = &self.git_settings;
        let tx = match &mut self.slot {
            Some(ct) => &mut ct.tx,
            None => return Err(finalized_error()),
        };
        let lookups = lookups_for(tx, remote_name.as_str(), &branch_names);
        let updates = match bookmark_updates(&branch_names, &lookups) {
            Ok(u) => u,
            Err(e) => return Err(e),
        };
        match push_updates(tx, settings, remote_name.as_str(), updates) {
            Ok(c) => Ok(FfiGitPushStats::from_counts(&c)),
            Err(e) => Err(git_error(e.to_string())),
        }
    }

    /// Ends the transaction and writes what it did; see `FfiTransaction::commit`.
    pub fn commit(&mut self, description: String) -> (r: Result<FfiReadonlyRepo, JjError>)
        ensures
            final(self).is_active() == active_after(old(self).is_active(), TxOp::Finalize),
            !old(self).is_active() ==> r is Err && is_finalized_error(r->Err_0),
            r is Err && !is_finalized_error(r->Err_0) ==> r->Err_0 is Transaction,
            old(self).is_active() ==> r is Ok || r->Err_0 is Transaction,
    {
        crate::transaction::commit_slot(&mut self.slot, description.as_str())
    }

    /// Ends the transaction and drops what it did.
    pub fn discard(&mut self) -> (r: Result<(), JjError>)
        ensures
            final(self).is_active() == active_after(old(self).is_active(), TxOp::Finalize),
            r is Ok <==> old(self).is_active(),
            r is Err ==> is_finalized_error(r->Err_0),
    {
        crate::transaction::discard_slot(&mut self.slot)
    }
}

} // verus!
