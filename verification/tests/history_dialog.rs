use gauge_app::history::{history_load_state, history_subject_ready, HistoryLoadState};
use gauge_app::history::{
    bare_principal_id, initials_from_id, is_group_relation_field, is_history_acl_error,
    is_relation_field, relation_change_verb, relation_row, RELATION_FIELDS,
};

#[test]
fn relation_fields_include_owner_groups() {
    assert!(RELATION_FIELDS.contains(&"owner_groups"));
    assert!(is_relation_field("owner_groups"));
    assert!(is_group_relation_field("owner_groups"));
    assert!(!is_group_relation_field("owner_users"));
}

#[test]
fn relation_change_verb_added_removed() {
    assert_eq!(relation_change_verb("", "user:alice"), Some("Added"));
    assert_eq!(relation_change_verb("user:alice", ""), Some("Removed"));
    assert_eq!(relation_change_verb("a", "b"), None);
    assert_eq!(relation_change_verb("", ""), None);
}

#[test]
fn bare_principal_and_initials() {
    assert_eq!(bare_principal_id("user:alice"), "alice");
    assert_eq!(bare_principal_id("alice"), "alice");
    assert_eq!(initials_from_id("alice"), "AL");
    assert_eq!(initials_from_id(""), "?");
}

#[test]
fn every_relation_field_is_recognised() {
    for f in RELATION_FIELDS.iter() {
        assert!(is_relation_field(f));
    }
    assert!(!is_relation_field("name"));
    assert!(!is_relation_field("owner_group"));
    assert!(!is_relation_field(""));
    assert!(is_group_relation_field("granted_groups"));
    assert!(is_group_relation_field("member_groups"));
    assert!(!is_group_relation_field("granted_users"));
    assert!(!is_group_relation_field("member_users"));
}

#[test]
fn bare_principal_splits_at_first_colon_only() {
    assert_eq!(bare_principal_id("group:ops:east"), "ops:east");
    assert_eq!(bare_principal_id(":x"), "x");
    assert_eq!(bare_principal_id("x:"), "");
    assert_eq!(bare_principal_id(""), "");
}

#[test]
fn initials_edge_cases() {
    assert_eq!(initials_from_id("  bob  "), "BO");
    assert_eq!(initials_from_id("x"), "X");
    assert_eq!(initials_from_id("   "), "?");
    assert_eq!(initials_from_id("--"), "?");
    assert_eq!(initials_from_id("a-b"), "AB");
    assert_eq!(initials_from_id("9lives"), "9L");
    assert_eq!(initials_from_id("éa"), "éA");
    assert_eq!(initials_from_id("\u{0B}ab"), "AB");
}

#[test]
fn relation_verb_reverses() {
    assert_eq!(relation_change_verb("", "g"), Some("Added"));
    assert_eq!(relation_change_verb("g", ""), Some("Removed"));
    assert_eq!(relation_change_verb("x", "y"), relation_change_verb("y", "x"));
}

#[test]
fn acl_error_messages() {
    assert!(is_history_acl_error("error running server function: Not authorized to view this history"));
    assert!(is_history_acl_error("Authentication required"));
    assert!(!is_history_acl_error("Failed to load record history"));
    assert!(!is_history_acl_error("not authorized"));
    assert!(!is_history_acl_error(""));
}

#[test]
fn relation_row_for_group_grant() {
    let row = relation_row("granted_groups", "", "group:deployers").unwrap();
    assert_eq!(row.verb, "Added");
    assert_eq!(row.display_id, "deployers");
    assert_eq!(row.initials, "DE");
    assert!(row.link_group);
    assert_eq!(row.group_href, "/permission/groups/deployers");
}

#[test]
fn relation_row_for_user_removal() {
    let row = relation_row("member_users", "user:alice", "").unwrap();
    assert_eq!(row.verb, "Removed");
    assert_eq!(row.display_id, "alice");
    assert_eq!(row.initials, "AL");
    assert!(!row.link_group);
    assert_eq!(row.group_href, "/permission/groups/alice");
}

#[test]
fn relation_row_none_for_other_changes() {
    assert!(relation_row("description", "", "x").is_none());
    assert!(relation_row("owner_users", "a", "b").is_none());
    assert!(relation_row("owner_users", "", "").is_none());
}

#[test]
fn history_dialog_subject_and_load_state() {
    assert!(history_subject_ready("permission", "p1"));
    assert!(!history_subject_ready("", "p1"));
    assert!(!history_subject_ready("permission", ""));
    assert_eq!(history_load_state(None), HistoryLoadState::Loaded);
    assert_eq!(history_load_state(Some("Not authorized to view this history")), HistoryLoadState::AccessDenied);
    assert_eq!(history_load_state(Some("Authentication required")), HistoryLoadState::AccessDenied);
    assert_eq!(history_load_state(Some("Failed to load record history")), HistoryLoadState::LoadFailed);
}

#[test]
fn initials_over_untrimmed_id() {
    assert_eq!(initials_from_id("j.doe"), "JD");
    assert_eq!(initials_from_id("  -  "), "?");
    assert_eq!(initials_from_id("\u{3000}zoe\u{00A0}"), "ZO");
}
