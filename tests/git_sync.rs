use std::path::Path;

use jj_ffi::error::JjError;
use jj_ffi::git::{
    branch_selection, classify_branch_pattern, contains_star, get_abandoned_commits_from_import,
    BranchPattern, BranchSelection, FfiGitImportStats, FfiGitPushStats, ImportCounts, PushCounts,
};
use jj_ffi::repo::FfiReadonlyRepo;
use jj_ffi::workspace::create_user_settings;
use jj_lib::file_util::create_or_reuse_dir;
use jj_lib::repo::{BackendInitializer, ReadonlyRepo};
use jj_lib::signing::Signer;
use jj_lib::simple_backend::SimpleBackend;

fn plain_repo(name: &str) -> FfiReadonlyRepo {
    let nanos = std::time::SystemTime::now()
        .duration_since(std::time::UNIX_EPOCH)
        .unwrap()
        .as_nanos();
    let path = format!("/tmp/jj_ffi_git_test_{}_{}", name, nanos);
    let p = Path::new(&path);
    create_or_reuse_dir(p).unwrap();
    let settings = create_user_settings("Test User", "test@example.com").unwrap();
    let backend: &BackendInitializer = &|_settings, store_path| Ok(Box::new(SimpleBackend::init(store_path)));
    let repo = ReadonlyRepo::init(
        &settings,
        p,
        backend,
        Signer::from_settings(&settings).unwrap(),
        ReadonlyRepo::default_op_store_initializer(),
        ReadonlyRepo::default_op_heads_store_initializer(),
        ReadonlyRepo::default_index_store_initializer(),
        ReadonlyRepo::default_submodule_store_initializer(),
    )
    .unwrap();
    FfiReadonlyRepo::new(repo)
}

#[test]
fn star_makes_a_glob() {
    assert!(contains_star("feature/*"));
    assert!(!contains_star("main"));
    assert_eq!(classify_branch_pattern("feat*"), BranchPattern::Glob("feat*".to_string()));
    assert_eq!(classify_branch_pattern("main"), BranchPattern::Exact("main".to_string()));
}

#[test]
fn no_patterns_select_every_branch() {
    assert_eq!(branch_selection(&vec![]), BranchSelection::All);
    let sel = branch_selection(&vec!["main".to_string(), "rel-*".to_string()]);
    assert_eq!(
        sel,
        BranchSelection::Union(vec![BranchPattern::Exact("main".to_string()), BranchPattern::Glob("rel-*".to_string())])
    );
}

#[test]
fn statistics_count_each_list() {
    let s = FfiGitImportStats::from_counts(&ImportCounts { abandoned: 1, changed_bookmarks: 2, changed_tags: 3, failed_refs: 4 });
    assert_eq!(
        (s.abandoned_commits_count, s.changed_remote_bookmarks_count, s.changed_remote_tags_count, s.failed_refs_count),
        (1, 2, 3, 4)
    );
    assert!(get_abandoned_commits_from_import(&s).is_empty());
    let p = FfiGitPushStats::from_counts(&PushCounts { pushed: 3, rejected: 0, remote_rejected: 0 });
    assert!(p.all_ok);
    assert_eq!(p.pushed_count, 3);
    let p = FfiGitPushStats::from_counts(&PushCounts { pushed: 1, rejected: 0, remote_rejected: 2 });
    assert!(!p.all_ok);
    assert_eq!(p.remote_rejected_count, 2);
}

#[test]
fn git_operations_need_a_git_backend() {
    let repo = plain_repo("no_git");
    let mut tx = repo.start_git_transaction().unwrap();
    assert!(matches!(tx.import_refs(), Err(JjError::Git { .. })));
    assert!(matches!(tx.fetch("origin".to_string(), vec![]), Err(JjError::Git { .. })));
    assert!(matches!(tx.push_branches("origin".to_string(), vec!["nope".to_string()]), Err(JjError::Git { .. })));
}

#[test]
fn git_transaction_is_single_use() {
    let repo = plain_repo("git_single_use");
    let mut tx = repo.start_git_transaction().unwrap();
    tx.discard().unwrap();
    assert!(matches!(tx.export_refs(), Err(JjError::Internal { .. })));
    assert!(matches!(tx.commit("late".to_string()), Err(JjError::Internal { .. })));
    assert!(matches!(tx.discard(), Err(JjError::Internal { .. })));
}
