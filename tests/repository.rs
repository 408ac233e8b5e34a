use std::path::Path;

use jj_ffi::commit::{FfiNewCommit, FfiRewriteCommit};
use jj_ffi::error::JjError;
use jj_ffi::ids::{FfiChangeId, FfiCommitId};
use jj_ffi::log::{evaluate_log, evaluate_log_flat, FfiGraphEdgeType, FfiLogOptions};
use jj_ffi::repo::FfiReadonlyRepo;
use jj_ffi::signature::FfiTimestamp;
use jj_ffi::transaction::FfiTransaction;
use jj_ffi::workspace::create_user_settings;
use jj_lib::file_util::create_or_reuse_dir;
use jj_lib::repo::{BackendInitializer, ReadonlyRepo};
use jj_lib::signing::Signer;
use jj_lib::simple_backend::SimpleBackend;

const EMAIL: &str = "test@example.com";

fn fresh_repo(name: &str) -> FfiReadonlyRepo {
    let nanos = std::time::SystemTime::now()
        .duration_since(std::time::UNIX_EPOCH)
        .unwrap()
        .as_nanos();
    let path = format!("/tmp/jj_ffi_test_{}_{}", name, nanos);
    let p = Path::new(&path);
    create_or_reuse_dir(p).unwrap();
    let settings = create_user_settings("Test User", EMAIL).unwrap();
    let backend: &BackendInitializer = &|_settings, store_path| Ok(Box::new(SimpleBackend::init(store_path)));
    let repo = ReadonlyRepo::init(
        &settings,
        p,
        backend,
        Signer::from_settings(&settings).unwrap(),
        ReadonlyRepo::default_op_store_initializer(),
        ReadonlyRepo::default_op_heads_store_initializer(),
        ReadonlyRepo::default_index_store_initializer(),
        ReadonlyRepo::default_submodule_store_initializer(),
    )
    .unwrap();
    FfiReadonlyRepo::new(repo)
}

fn new_commit(tx: &mut FfiTransaction, parent: &FfiCommitId, description: &str) -> FfiCommitId {
    let c = tx
        .create_empty_commit(FfiNewCommit::new(vec![parent.clone()], description.to_string()))
        .unwrap();
    c.id
}

fn options(revisions: &[&str], limit: i64, reversed: bool) -> FfiLogOptions {
    FfiLogOptions {
        revisions: revisions.iter().map(|s| s.to_string()).collect(),
        limit,
        reversed,
    }
}

fn log_ids(repo: &FfiReadonlyRepo, opts: &FfiLogOptions) -> Vec<String> {
    evaluate_log(repo.inner(), opts, EMAIL)
        .unwrap()
        .entries
        .into_iter()
        .map(|e| e.commit.id.hex)
        .collect()
}

/// A chain root <- a <- b <- c, committed; returns the repo and the three ids.
fn chain_repo(name: &str) -> (FfiReadonlyRepo, FfiCommitId, FfiCommitId, FfiCommitId) {
    let repo = fresh_repo(name);
    let root = repo.root_commit_id();
    let mut tx = repo.start_transaction().unwrap();
    let a = new_commit(&mut tx, &root, "a");
    let b = new_commit(&mut tx, &a, "b");
    let c = new_commit(&mut tx, &b, "c");
    let repo = tx.commit("chain".to_string()).unwrap();
    (repo, a, b, c)
}

#[test]
fn created_then_abandoned_commit_leaves_root_only() {
    let repo = fresh_repo("abandon_to_root");
    let root = repo.root_commit_id();
    let mut tx = repo.start_transaction().unwrap();
    let c = tx
        .create_empty_commit(FfiNewCommit::new(vec![root.clone()], "a".to_string()))
        .unwrap();
    assert_eq!(c.parent_ids, vec![root.clone()]);
    assert_eq!(c.description, "a");
    tx.abandon_commit(&c.id).unwrap();
    let after = tx.commit("abandon".to_string()).unwrap();
    let ids = log_ids(&after, &options(&["all()"], -1, false));
    assert_eq!(ids, vec![root.hex.clone()]);
    let ids = log_ids(&after, &options(&[], -1, false));
    assert_eq!(ids, vec![root.hex]);
}

#[test]
fn empty_prefix_is_invalid_argument() {
    let repo = fresh_repo("empty_prefix");
    let r = repo.resolve_commit_prefix("");
    assert!(matches!(r, Err(JjError::InvalidArgument { .. })));
}

#[test]
fn expression_list_is_union() {
    let (repo, a, b, _c) = chain_repo("union");
    let mut listed = log_ids(&repo, &options(&[&a.hex, &b.hex], -1, false));
    let joined = format!("{} | {}", a.hex, b.hex);
    let mut united = log_ids(&repo, &options(&[&joined], -1, false));
    listed.sort();
    united.sort();
    assert_eq!(listed, united);
    assert_eq!(listed.len(), 2);
}

#[test]
fn operations_after_commit_fail_as_finalized() {
    let repo = fresh_repo("finalized_commit");
    let root = repo.root_commit_id();
    let mut tx = repo.start_transaction().unwrap();
    assert!(tx.is_open());
    tx.commit("nothing".to_string()).unwrap();
    assert!(!tx.is_open());
    let is_finalized = |e: &JjError| {
        matches!(e, JjError::Internal { message } if message == "Transaction has already been committed or discarded")
    };
    assert!(is_finalized(&tx.create_empty_commit(FfiNewCommit::new(vec![root.clone()], "x".to_string())).unwrap_err()));
    assert!(is_finalized(&tx.create_commit_from_parent(&root, "x".to_string()).unwrap_err()));
    assert!(is_finalized(&tx.update_description(&root, "x".to_string()).unwrap_err()));
    assert!(is_finalized(&tx.abandon_commit(&root).unwrap_err()));
    assert!(is_finalized(&tx.has_changes().unwrap_err()));
    assert!(is_finalized(&tx.discard().unwrap_err()));
    assert!(is_finalized(&tx.commit("again".to_string()).err().unwrap()));
}

#[test]
fn operations_after_discard_fail_as_finalized() {
    let repo = fresh_repo("finalized_discard");
    let root = repo.root_commit_id();
    let mut tx = repo.start_transaction().unwrap();
    new_commit(&mut tx, &root, "dropped");
    tx.discard().unwrap();
    assert!(matches!(tx.has_changes(), Err(JjError::Internal { .. })));
    assert!(matches!(tx.commit("late".to_string()), Err(JjError::Internal { .. })));
    // Nothing of the discarded transaction reached the repository.
    assert_eq!(log_ids(&repo, &options(&[], -1, false)), vec![root.hex]);
}

#[test]
fn second_commit_fails_and_applies_nothing() {
    let repo = fresh_repo("double_commit");
    let root = repo.root_commit_id();
    let mut tx = repo.start_transaction().unwrap();
    new_commit(&mut tx, &root, "once");
    let after = tx.commit("first".to_string()).unwrap();
    let second = tx.commit("second".to_string());
    assert!(matches!(second, Err(JjError::Internal { .. })));
    assert_eq!(log_ids(&after, &options(&[], -1, false)).len(), 2);
}

#[test]
fn prefix_resolves_to_the_one_matching_commit() {
    let (repo, a, _b, _c) = chain_repo("prefix_single");
    let prefix = &a.hex[..12];
    let ids = repo.resolve_commit_prefix(prefix).unwrap();
    assert_eq!(ids, vec![a.clone()]);
    assert!(ids[0].hex.starts_with(prefix));
    let upper = prefix.to_uppercase();
    assert_eq!(repo.resolve_commit_prefix(&upper).unwrap(), vec![a]);
}

#[test]
fn prefix_without_match_is_commit_not_found() {
    let repo = fresh_repo("prefix_none");
    let prefix = "0000000000000000000000000000000000000001";
    match repo.resolve_commit_prefix(prefix) {
        Err(JjError::CommitNotFound { id }) => assert_eq!(id, prefix),
        other => panic!("unexpected {:?}", other),
    }
}

#[test]
fn prefix_with_non_hex_character_is_invalid() {
    let repo = fresh_repo("prefix_bad");
    assert!(matches!(repo.resolve_commit_prefix("12g4"), Err(JjError::InvalidArgument { .. })));
}

#[test]
fn log_limit_cuts_the_grouped_log() {
    let (repo, _a, b, c) = chain_repo("log_limit");
    let ids = log_ids(&repo, &options(&[], 2, false));
    assert_eq!(ids, vec![c.hex, b.hex]);
    assert_eq!(log_ids(&repo, &options(&[], 0, false)).len(), 0);
    assert_eq!(log_ids(&repo, &options(&[], -1, false)).len(), 4);
}

#[test]
fn reversed_log_is_the_plain_log_inverted() {
    let (repo, a, b, c) = chain_repo("log_reversed");
    let root = repo.root_commit_id();
    let plain = log_ids(&repo, &options(&[], -1, false));
    let mut reversed = log_ids(&repo, &options(&[], -1, true));
    assert_eq!(plain, vec![c.hex.clone(), b.hex.clone(), a.hex.clone(), root.hex.clone()]);
    reversed.reverse();
    assert_eq!(plain, reversed);
}

#[test]
fn reversed_log_turns_edges_toward_children() {
    let (repo, a, b, _c) = chain_repo("log_reversed_edges");
    let log = evaluate_log(repo.inner(), &options(&[&a.hex, &b.hex], -1, true), EMAIL).unwrap();
    assert_eq!(log.entries.len(), 2);
    assert_eq!(log.entries[0].commit.id, a);
    assert_eq!(log.entries[0].edges.len(), 1);
    assert_eq!(log.entries[0].edges[0].target, b);
    assert_eq!(log.entries[0].edges[0].edge_type, FfiGraphEdgeType::Direct);
}

#[test]
fn edges_are_direct_or_indirect_by_elision() {
    let (repo, a, b, c) = chain_repo("log_edges");
    let root = repo.root_commit_id();
    let log = evaluate_log(repo.inner(), &options(&[&c.hex, &b.hex], -1, false), EMAIL).unwrap();
    assert_eq!(log.entries[0].commit.id, c);
    assert_eq!(log.entries[0].edges[0].target, b);
    assert_eq!(log.entries[0].edges[0].edge_type, FfiGraphEdgeType::Direct);
    let expr = format!("{} | root()", c.hex);
    let log = evaluate_log(repo.inner(), &options(&[&expr], -1, false), EMAIL).unwrap();
    assert_eq!(log.entries[0].commit.id, c);
    assert_eq!(log.entries[0].edges[0].target, root);
    assert_eq!(log.entries[0].edges[0].edge_type, FfiGraphEdgeType::Indirect);
    assert!(log.entries[0].commit.parent_ids.contains(&b));
    let _ = a;
}

#[test]
fn flat_log_follows_limit_and_order() {
    let (repo, a, b, c) = chain_repo("log_flat");
    let flat: Vec<String> = evaluate_log_flat(repo.inner(), &options(&[], 3, false), EMAIL)
        .unwrap()
        .into_iter()
        .map(|c| c.id.hex)
        .collect();
    assert_eq!(flat, vec![c.hex.clone(), b.hex.clone(), a.hex.clone()]);
    let flat: Vec<String> = evaluate_log_flat(repo.inner(), &options(&[], 3, true), EMAIL)
        .unwrap()
        .into_iter()
        .map(|c| c.id.hex)
        .collect();
    assert_eq!(flat, vec![a.hex, b.hex, c.hex]);
}

#[test]
fn bad_revset_is_a_revset_error() {
    let repo = fresh_repo("revset_bad");
    let r = evaluate_log(repo.inner(), &options(&["(("], -1, false), EMAIL);
    assert!(matches!(r, Err(JjError::Revset { .. })));
    let r = repo.evaluate_revset("no_such_bookmark".to_string(), EMAIL.to_string());
    assert!(matches!(r, Err(JjError::Revset { .. })));
}

#[test]
fn revset_queries_list_and_count() {
    let (repo, a, b, c) = chain_repo("revset_queries");
    let ids = repo.evaluate_revset("all()".to_string(), EMAIL.to_string()).unwrap();
    assert_eq!(ids.len(), 4);
    assert_eq!(ids[0], c);
    assert_eq!(repo.count_revset("all()".to_string(), EMAIL.to_string()).unwrap(), 4);
    let expr = format!("{}::", a.hex);
    assert_eq!(repo.count_revset(expr.clone(), EMAIL.to_string()).unwrap(), 3);
    let commits = repo.evaluate_revset_to_commits(expr, EMAIL.to_string()).unwrap();
    let descriptions: Vec<String> = commits.into_iter().map(|c| c.description).collect();
    assert_eq!(descriptions, vec!["c", "b", "a"]);
    let _ = b;
}

#[test]
fn new_commit_needs_known_well_formed_parents() {
    let repo = fresh_repo("new_commit_parents");
    let mut tx = repo.start_transaction().unwrap();
    let empty = tx.create_empty_commit(FfiNewCommit::new(vec![], "x".to_string()));
    assert!(matches!(empty, Err(JjError::InvalidArgument { .. })));
    let bad = tx.create_empty_commit(FfiNewCommit::new(vec![FfiCommitId::new("xyz".to_string())], "x".to_string()));
    assert!(matches!(bad, Err(JjError::InvalidArgument { .. })));
    let unknown = FfiCommitId::new("ab".repeat(64));
    let missing = tx.create_empty_commit(FfiNewCommit::new(vec![unknown], "x".to_string()));
    assert!(matches!(missing, Err(JjError::InvalidArgument { .. })));
    assert!(tx.is_open());
    assert!(!tx.has_changes().unwrap());
}

#[test]
fn new_commit_takes_the_given_author() {
    let repo = fresh_repo("new_commit_author");
    let root = repo.root_commit_id();
    let mut tx = repo.start_transaction().unwrap();
    let mut spec = FfiNewCommit::new(vec![root], "authored".to_string());
    spec.author_name = Some("Ada".to_string());
    spec.author_email = Some("ada@example.com".to_string());
    spec.author_timestamp = Some(FfiTimestamp { millis_since_epoch: 1_000_000, tz_offset_minutes: 60 });
    let c = tx.create_empty_commit(spec).unwrap();
    assert_eq!(c.author.name, "Ada");
    assert_eq!(c.author.email, "ada@example.com");
    assert_eq!(c.author.timestamp, FfiTimestamp { millis_since_epoch: 1_000_000, tz_offset_minutes: 60 });
    assert!(tx.has_changes().unwrap());
}

#[test]
fn rewrite_keeps_what_is_not_given() {
    let repo = fresh_repo("rewrite");
    let root = repo.root_commit_id();
    let mut tx = repo.start_transaction().unwrap();
    let a = new_commit(&mut tx, &root, "first");
    let b = new_commit(&mut tx, &root, "second");
    let r = tx
        .rewrite_commit(FfiRewriteCommit { commit_id: a.clone(), new_description: None, new_parent_ids: Some(vec![b.clone()]) })
        .unwrap();
    assert_eq!(r.description, "first");
    assert_eq!(r.parent_ids, vec![b.clone()]);
    assert_ne!(r.id, a);
    let u = tx.update_description(&r.id, "renamed".to_string()).unwrap();
    assert_eq!(u.description, "renamed");
    assert_eq!(u.parent_ids, vec![b]);
    let none = tx.rewrite_commit(FfiRewriteCommit { commit_id: u.id.clone(), new_description: None, new_parent_ids: Some(vec![]) });
    assert!(matches!(none, Err(JjError::InvalidArgument { .. })));
    let after = tx.commit("rewrites".to_string()).unwrap();
    let descriptions: Vec<String> = after
        .evaluate_revset_to_commits("all()".to_string(), EMAIL.to_string())
        .unwrap()
        .into_iter()
        .map(|c| c.description)
        .collect();
    assert!(descriptions.contains(&"renamed".to_string()));
    assert!(!descriptions.contains(&"first".to_string()));
}

#[test]
fn commit_from_parent_has_that_parent() {
    let repo = fresh_repo("from_parent");
    let root = repo.root_commit_id();
    let mut tx = repo.start_transaction().unwrap();
    let c = tx.create_commit_from_parent(&root, "child".to_string()).unwrap();
    assert_eq!(c.parent_ids, vec![root]);
    assert_eq!(c.description, "child");
    let bad = tx.create_commit_from_parent(&FfiCommitId::new("0".to_string()), "x".to_string());
    assert!(matches!(bad, Err(JjError::InvalidArgument { .. })));
}

#[test]
fn root_commit_cannot_be_abandoned() {
    let repo = fresh_repo("abandon_root");
    let root = repo.root_commit_id();
    let mut tx = repo.start_transaction().unwrap();
    assert!(matches!(tx.abandon_commit(&root), Err(JjError::InvalidArgument { .. })));
    assert!(matches!(tx.abandon_commit(&FfiCommitId::new("zz".to_string())), Err(JjError::InvalidArgument { .. })));
}

#[test]
fn lookups_by_id_and_change_id() {
    let (repo, a, _b, _c) = chain_repo("lookups");
    let commit = repo.get_commit(&a).unwrap();
    assert_eq!(commit.id, a);
    assert_eq!(commit.description, "a");
    assert_eq!(repo.resolve_change_id(&commit.change_id).unwrap(), vec![a]);
    let root = repo.root_commit();
    assert_eq!(root.id, repo.root_commit_id());
    assert_eq!(root.change_id, repo.root_change_id());
    assert!(root.parent_ids.is_empty());
    let unknown = FfiChangeId::new("kkkkkkkkkkkkkkkkkkkkkkkkkkkkkkkk".to_string());
    match repo.resolve_change_id(&unknown) {
        Err(JjError::CommitNotFound { id }) => assert_eq!(id, unknown.hex),
        other => panic!("unexpected {:?}", other),
    }
    assert!(matches!(repo.resolve_change_id(&FfiChangeId::new("abc".to_string())), Err(JjError::InvalidArgument { .. })));
    assert!(matches!(repo.get_commit(&FfiCommitId::new("q".to_string())), Err(JjError::InvalidArgument { .. })));
    let missing = FfiCommitId::new("ab".repeat(64));
    match repo.get_commit(&missing) {
        Err(JjError::CommitNotFound { id }) => assert_eq!(id, missing.hex),
        other => panic!("unexpected {:?}", other),
    }
    let short = FfiCommitId::new("ab".to_string());
    assert!(matches!(repo.get_commit(&short), Err(JjError::CommitNotFound { .. })));
}

#[test]
fn abandoning_records_a_change() {
    let repo = fresh_repo("abandon_changes");
    let root = repo.root_commit_id();
    let mut tx = repo.start_transaction().unwrap();
    assert!(!tx.has_changes().unwrap());
    let c = new_commit(&mut tx, &root, "a");
    tx.abandon_commit(&c).unwrap();
    assert!(tx.has_changes().unwrap());
    let unknown = FfiCommitId::new("cd".repeat(64));
    assert!(matches!(tx.abandon_commit(&unknown), Err(JjError::InvalidArgument { .. })));
}

#[test]
fn unknown_parent_is_invalid_argument() {
    let repo = fresh_repo("unknown_parent");
    let mut tx = repo.start_transaction().unwrap();
    let unknown = FfiCommitId::new("ef".repeat(64));
    assert!(matches!(tx.create_commit_from_parent(&unknown, "x".to_string()), Err(JjError::InvalidArgument { .. })));
    assert!(tx.is_open());
}

#[test]
fn root_commit_cannot_be_rewritten() {
    let repo = fresh_repo("rewrite_root");
    let root = repo.root_commit_id();
    let mut tx = repo.start_transaction().unwrap();
    assert!(matches!(tx.update_description(&root, "x".to_string()), Err(JjError::InvalidArgument { .. })));
    let a = new_commit(&mut tx, &root, "a");
    let bad = FfiRewriteCommit { commit_id: a, new_description: None, new_parent_ids: Some(vec![FfiCommitId::new("ab".repeat(64))]) };
    assert!(matches!(tx.rewrite_commit(bad), Err(JjError::InvalidArgument { .. })));
}

#[test]
fn revset_errors_name_their_phase() {
    let repo = fresh_repo("revset_phase");
    match repo.evaluate_revset("((".to_string(), EMAIL.to_string()) {
        Err(JjError::Revset { message }) => assert!(message.starts_with("Failed to parse revset: ")),
        other => panic!("unexpected {:?}", other),
    }
    match repo.evaluate_revset("no_such_bookmark".to_string(), EMAIL.to_string()) {
        Err(JjError::Revset { message }) => assert!(message.starts_with("Failed to resolve revset: ")),
        other => panic!("unexpected {:?}", other),
    }
}

#[test]
fn short_parent_id_is_invalid_argument() {
    let repo = fresh_repo("short_parent");
    let mut tx = repo.start_transaction().unwrap();
    let short = FfiCommitId::new("abcd".to_string());
    let r = tx.create_empty_commit(FfiNewCommit::new(vec![short], "x".to_string()));
    assert!(matches!(r, Err(JjError::InvalidArgument { .. })));
    assert!(matches!(tx.abandon_commit(&FfiCommitId::new(String::new())), Err(JjError::InvalidArgument { .. })));
}

#[test]
fn rewrite_keeps_fields_not_given() {
    let repo = fresh_repo("rewrite_keeps");
    let root = repo.root_commit_id();
    let mut tx = repo.start_transaction().unwrap();
    let a = tx.create_empty_commit(FfiNewCommit::new(vec![root.clone()], "kept".to_string())).unwrap();
    let r = tx
        .rewrite_commit(FfiRewriteCommit { commit_id: a.id.clone(), new_description: None, new_parent_ids: None })
        .unwrap();
    assert_eq!(r.description, "kept");
    assert_eq!(r.parent_ids, vec![root]);
    assert_eq!(r.change_id, a.change_id);
}
