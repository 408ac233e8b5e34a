use jj_ffi::commit::FfiNewCommit;
use jj_ffi::error::{finalized_error, JjError};
use jj_ffi::hexcode::starts_with_hex_prefix;
use jj_ffi::ids::{FfiChangeId, FfiCommitId};
use jj_ffi::log::{log_limit, FfiGraphEdgeType, FfiLogOptions};
use jj_ffi::repo::{change_outcome, prefix_outcome, PrefixMatch};
use jj_ffi::signature::{FfiSignature, FfiTimestamp};
use jj_ffi::transaction::parent_bytes;
use jj_ffi::workspace::settings_text;
use jj_lib::graph::GraphEdgeType;

#[test]
fn commit_id_text_is_lowercase_hex() {
    assert_eq!(FfiCommitId::from_bytes(&vec![0xab, 0x01, 0xff]).hex, "ab01ff");
    assert_eq!(FfiCommitId::from_bytes(&vec![]).hex, "");
}

#[test]
fn commit_id_decodes_either_case() {
    assert_eq!(FfiCommitId::new("AB01".to_string()).to_bytes("id: ").unwrap(), vec![0xab, 0x01]);
    assert_eq!(FfiCommitId::new("ab01".to_string()).to_bytes("id: ").unwrap(), vec![0xab, 0x01]);
}

#[test]
fn commit_id_rejects_odd_length_and_other_characters() {
    assert!(matches!(FfiCommitId::new("abc".to_string()).to_bytes("id: "), Err(JjError::InvalidArgument { .. })));
    match FfiCommitId::new("zz".to_string()).to_bytes("Invalid commit ID: ") {
        Err(JjError::InvalidArgument { message }) => assert!(message.starts_with("Invalid commit ID: ")),
        other => panic!("unexpected {:?}", other),
    }
}

#[test]
fn change_id_text_is_reverse_hex() {
    assert_eq!(FfiChangeId::from_bytes(&vec![0x00, 0xff, 0x1e]).hex, "zzkkyl");
    assert_eq!(FfiChangeId::new("ZZkk".to_string()).to_bytes().unwrap(), vec![0x00, 0xff]);
    assert!(matches!(FfiChangeId::new("ab".to_string()).to_bytes(), Err(JjError::InvalidArgument { .. })));
    assert!(matches!(FfiChangeId::new("zzz".to_string()).to_bytes(), Err(JjError::InvalidArgument { .. })));
}

#[test]
fn hex_prefix_comparison_ignores_case() {
    assert!(starts_with_hex_prefix("ab01ff", "AB0"));
    assert!(starts_with_hex_prefix("ab01ff", ""));
    assert!(!starts_with_hex_prefix("ab01ff", "ab1"));
    assert!(!starts_with_hex_prefix("ab", "abc"));
}

#[test]
fn prefix_outcomes_cover_the_three_answers() {
    match prefix_outcome("ab", PrefixMatch::NoMatch) {
        Err(JjError::CommitNotFound { id }) => assert_eq!(id, "ab"),
        other => panic!("unexpected {:?}", other),
    }
    assert!(matches!(prefix_outcome("ab", PrefixMatch::AmbiguousMatch), Err(JjError::InvalidArgument { .. })));
    let ids = prefix_outcome("aB", PrefixMatch::SingleMatch(vec![0xab, 0xcd])).unwrap();
    assert_eq!(ids, vec![FfiCommitId::new("abcd".to_string())]);
    assert!(matches!(prefix_outcome("ff", PrefixMatch::SingleMatch(vec![0xab])), Err(JjError::Internal { .. })));
}

#[test]
fn change_outcomes_list_every_commit() {
    let change = FfiChangeId::new("zzzz".to_string());
    let ids = change_outcome(&change, Some(vec![vec![0x01], vec![0x02]])).unwrap();
    assert_eq!(ids, vec![FfiCommitId::new("01".to_string()), FfiCommitId::new("02".to_string())]);
    assert!(matches!(change_outcome(&change, None), Err(JjError::CommitNotFound { id }) if id == "zzzz"));
    assert!(matches!(change_outcome(&change, Some(vec![])), Err(JjError::CommitNotFound { .. })));
}

#[test]
fn parents_decode_in_order() {
    let ids = vec![FfiCommitId::new("0a".to_string()), FfiCommitId::new("FF".to_string())];
    assert_eq!(parent_bytes(&ids).unwrap(), vec![vec![0x0a], vec![0xff]]);
    assert!(matches!(parent_bytes(&vec![]), Err(JjError::InvalidArgument { .. })));
    let bad = vec![FfiCommitId::new("0a".to_string()), FfiCommitId::new("0".to_string())];
    assert!(matches!(parent_bytes(&bad), Err(JjError::InvalidArgument { .. })));
}

#[test]
fn negative_limit_means_no_limit() {
    assert_eq!(log_limit(-1), usize::MAX);
    assert_eq!(log_limit(i64::MIN), usize::MAX);
    assert_eq!(log_limit(0), 0);
    assert_eq!(log_limit(7), 7);
}

#[test]
fn log_options_default_to_all_unlimited_order() {
    let o = FfiLogOptions::default();
    assert!(o.revisions.is_empty());
    assert_eq!(o.limit, 0);
    assert!(!o.reversed);
}

#[test]
fn edge_kinds_map_one_to_one() {
    assert_eq!(FfiGraphEdgeType::from_engine(GraphEdgeType::Direct), FfiGraphEdgeType::Direct);
    assert_eq!(FfiGraphEdgeType::from_engine(GraphEdgeType::Indirect), FfiGraphEdgeType::Indirect);
    assert_eq!(FfiGraphEdgeType::from_engine(GraphEdgeType::Missing), FfiGraphEdgeType::Missing);
}

#[test]
fn signatures_convert_both_ways() {
    let sig = FfiSignature {
        name: "Ada".to_string(),
        email: "ada@example.com".to_string(),
        timestamp: FfiTimestamp { millis_since_epoch: -5, tz_offset_minutes: -120 },
    };
    let engine = sig.to_engine();
    assert_eq!(engine.name, "Ada");
    assert_eq!(engine.timestamp.timestamp.0, -5);
    assert_eq!(engine.timestamp.tz_offset, -120);
    assert_eq!(FfiSignature::from_engine(&engine), sig);
}

#[test]
fn new_commit_spec_leaves_author_to_settings() {
    let spec = FfiNewCommit::new(vec![FfiCommitId::new("00".to_string())], "d".to_string());
    assert_eq!(spec.parent_ids.len(), 1);
    assert_eq!(spec.description, "d");
    assert!(spec.author_name.is_none() && spec.author_email.is_none() && spec.author_timestamp.is_none());
}

#[test]
fn errors_describe_their_kind() {
    assert_eq!(JjError::Revset { message: "bad".to_string() }.describe(), "Revset error: bad");
    assert_eq!(JjError::CommitNotFound { id: "ab".to_string() }.describe(), "Commit not found: ab");
    assert_eq!(finalized_error().describe(), "Internal error: Transaction has already been committed or discarded");
}

#[test]
fn settings_text_names_user() {
    assert_eq!(
        settings_text("Ann", "ann@x.org"),
        "\n[user]\nname = \"Ann\"\nemail = \"ann@x.org\"\n\n[operation]\nhostname = \"ffi-client\"\nusername = \"ffi-user\"\n"
    );
}
