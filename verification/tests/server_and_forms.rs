use gauge_app::e2e_lab::ListDomainsOverride;
use gauge_app::forms::{
    access_request_input, domain_create_input, member_add_kind, member_removal_prompt,
    owner_candidate, owner_removal_prompt, permission_create_input, principal_caption,
    search_filter, MemberAddKind,
};
use gauge_app::paths::{group_detail_path, permission_detail_path, request_detail_path};
use gauge_app::permissions::GaugePermission;
use gauge_app::picker::PrincipalPicker;
use gauge_app::requests::{
    decision_actions_shown, request_status_label, request_target_label, status_label,
    PermissionRequestStatus, PermissionRequestTargetKind,
};
use gauge_app::requests::request_caption;
use gauge_app::server::{
    history_error_message, history_gate_can_view, history_gate_rows, history_gate_source,
    history_page_access, CanViewAnswer, HistoryPageError, HistoryRowsAnswer,
};
use gauge_app::text::{char_alphanumeric, is_whitespace};
use gauge_app::server::{
    created_record_id, is_history_source_table, list_domains_short_circuit,
    principal_query_text, principal_search_limit, require_session, service_error_message,
    GAUGE_ADMIN_PERMISSION, MAX_PRINCIPAL_SEARCH_RESULTS,
};

#[test]
fn session_gate() {
    assert_eq!(require_session(Some("admin")), Ok(()));
    assert_eq!(require_session(None), Err("Authentication required".to_string()));
}

#[test]
fn error_wording_and_ids() {
    assert_eq!(service_error_message("list groups", "db down"), "Failed to list groups: db down");
    assert_eq!(created_record_id(Some("abc".into())), "abc");
    assert_eq!(created_record_id(None), "");
}

#[test]
fn history_tables() {
    assert!(is_history_source_table("permission"));
    assert!(is_history_source_table("permission_group"));
    assert!(!is_history_source_table("permission_domain"));
    assert!(!is_history_source_table("Permission"));
}

#[test]
fn list_domains_overrides() {
    assert!(list_domains_short_circuit::<u8>(ListDomainsOverride::Normal).is_none());
    assert_eq!(list_domains_short_circuit::<u8>(ListDomainsOverride::Empty), Some(Ok(vec![])));
    assert_eq!(
        list_domains_short_circuit::<u8>(ListDomainsOverride::Error),
        Some(Err("Failed to list domains: e2e forced failure".to_string()))
    );
}

#[test]
fn principal_search_inputs() {
    assert_eq!(principal_search_limit(0), 1);
    assert_eq!(principal_search_limit(10), 10);
    assert_eq!(principal_search_limit(50), 50);
    assert_eq!(principal_search_limit(51), MAX_PRINCIPAL_SEARCH_RESULTS);
    assert_eq!(principal_search_limit(u32::MAX), 50);
    assert_eq!(principal_query_text(Some("  ali ce \n".into())), "ali ce");
    assert_eq!(principal_query_text(None), "");
    assert_eq!(principal_query_text(Some("\u{2003}x\u{2003}".into())), "x");
}

#[test]
fn permission_names() {
    assert_eq!(GaugePermission::GaugeAdmin.name(), GAUGE_ADMIN_PERMISSION);
    assert_eq!(GAUGE_ADMIN_PERMISSION, "GaugeAdmin");
}

#[test]
fn labels() {
    assert_eq!(status_label(&PermissionRequestStatus::Pending), "PENDING");
    assert_eq!(status_label(&PermissionRequestStatus::Approved), "APPROVED");
    assert_eq!(status_label(&PermissionRequestStatus::Denied), "DENIED");
    assert_eq!(request_status_label(&PermissionRequestStatus::Denied), "DENIED");
    assert_eq!(request_target_label(&PermissionRequestTargetKind::Permission), "Permission");
    assert_eq!(request_target_label(&PermissionRequestTargetKind::Group), "Group");
    assert!(decision_actions_shown(true, &PermissionRequestStatus::Pending));
    assert!(!decision_actions_shown(false, &PermissionRequestStatus::Pending));
    assert!(!decision_actions_shown(true, &PermissionRequestStatus::Approved));
}

#[test]
fn paths() {
    assert_eq!(group_detail_path("g1"), "/permission/groups/g1");
    assert_eq!(permission_detail_path("p1"), "/permission/permissions/p1");
    assert_eq!(request_detail_path("r1"), "/permission/requests/r1");
}

#[test]
fn search_box_filter() {
    assert_eq!(search_filter("  deploy "), Some("deploy".to_string()));
    assert_eq!(search_filter("   "), None);
    assert_eq!(search_filter(""), None);
}

#[test]
fn create_forms() {
    let err = domain_create_input(" \t".into(), "d".into()).err().unwrap();
    assert_eq!(err, "Domain name is required.");
    let ok = domain_create_input(" Ops ".into(), "d".into()).ok().unwrap();
    assert_eq!(ok.name, " Ops ");
    assert_eq!(ok.description, "d");
    let err = permission_create_input("CanDeploy".into(), "".into(), " ".into()).err().unwrap();
    assert_eq!(err, "Permission domain is required.");
    let ok = permission_create_input("CanDeploy".into(), "x".into(), "dom1".into()).ok().unwrap();
    assert_eq!(ok.domain_id, "dom1");
    assert_eq!(ok.owners_group_id, "");
    assert_eq!(ok.name, "CanDeploy");
}

#[test]
fn access_request_dialog() {
    let err = access_request_input(PermissionRequestTargetKind::Group, "g1".into(), "\n".into()).err().unwrap();
    assert_eq!(err, "Reason is required.");
    let ok = access_request_input(PermissionRequestTargetKind::Group, "g1".into(), " need it".into()).ok().unwrap();
    assert_eq!(ok.target_kind, PermissionRequestTargetKind::Group);
    assert_eq!(ok.target_id, "g1");
    assert_eq!(ok.reason, " need it");
}

#[test]
fn owners_and_members() {
    assert_eq!(owner_candidate("user"), Ok(()));
    assert_eq!(owner_candidate("group"), Err("Only users can be owners.".to_string()));
    assert_eq!(member_add_kind("permission_group", "permission_group"), MemberAddKind::ChildGroup);
    assert_eq!(member_add_kind("user", "permission_group"), MemberAddKind::User);
    assert_eq!(member_removal_prompt(None), "Remove selected member?");
    assert_eq!(member_removal_prompt(Some("Ann")), "Remove 'Ann' from this group?");
    assert_eq!(owner_removal_prompt(None), "Remove selected owner?");
    assert_eq!(owner_removal_prompt(Some("Ann")), "Remove 'Ann' as an owner of this group?");
    assert_eq!(principal_caption(true, "g1"), "group (g1)");
    assert_eq!(principal_caption(false, "u1"), "user (u1)");
}

#[test]
fn picker_ignores_stale_answers() {
    let mut p: PrincipalPicker<u32> = PrincipalPicker::new();
    let first = p.begin_request();
    let second = p.begin_request();
    assert_eq!(second, first + 1);
    p.finish_request(second, Ok(vec![2]));
    p.finish_request(first, Ok(vec![1]));
    assert_eq!(p.options(), &vec![2]);
    assert!(p.error().is_none());
    p.finish_request(first, Err("boom".into()));
    assert_eq!(p.error(), Some(&"boom".to_string()));
    let third = p.begin_request();
    p.finish_request(third, Ok(vec![3, 4]));
    assert_eq!(p.options(), &vec![3, 4]);
    assert!(p.error().is_none());
}

fn msg(r: Result<(), HistoryPageError>) -> String {
    match r {
        Ok(()) => "ok".to_string(),
        Err(e) => history_error_message(&e, "Not authorized to view this history"),
    }
}

#[test]
fn history_access_gate() {
    assert_eq!(msg(history_page_access(true, None, "permission", CanViewAnswer::Allowed, HistoryRowsAnswer::Loaded, true)), "ok");
    assert_eq!(msg(history_page_access(true, None, "permission_group", CanViewAnswer::Allowed, HistoryRowsAnswer::Loaded, true)), "ok");
    assert_eq!(msg(history_page_access(false, None, "permission", CanViewAnswer::Allowed, HistoryRowsAnswer::Loaded, true)), "Authentication required");
    assert_eq!(msg(history_page_access(true, Some("boom"), "permission", CanViewAnswer::Allowed, HistoryRowsAnswer::Loaded, true)), "Failed to build Valence: boom");
    assert_eq!(msg(history_page_access(true, None, "user", CanViewAnswer::Allowed, HistoryRowsAnswer::Loaded, true)), "Not authorized to view this history");
    assert_eq!(msg(history_page_access(true, None, "permission", CanViewAnswer::Denied, HistoryRowsAnswer::Loaded, true)), "Not authorized to view this history");
    assert_eq!(msg(history_page_access(true, None, "permission", CanViewAnswer::CheckFailed, HistoryRowsAnswer::Loaded, true)), "Failed to load record history");
    assert_eq!(msg(history_page_access(true, None, "permission", CanViewAnswer::Allowed, HistoryRowsAnswer::AccessDenied, true)), "Not authorized to view this history");
    assert_eq!(msg(history_page_access(true, None, "permission", CanViewAnswer::Allowed, HistoryRowsAnswer::Failed, true)), "Failed to load record history");
    assert_eq!(msg(history_page_access(true, None, "permission", CanViewAnswer::Allowed, HistoryRowsAnswer::Loaded, false)), "Failed to load record history");
    assert_eq!(msg(history_gate_source(false, Some("x"), "user")), "Authentication required");
    assert_eq!(msg(history_gate_source(true, None, "permission")), "ok");
    assert_eq!(msg(history_gate_can_view(CanViewAnswer::Denied)), "Not authorized to view this history");
    assert_eq!(msg(history_gate_rows(HistoryRowsAnswer::Failed)), "Failed to load record history");
}

#[test]
fn request_captions() {
    assert_eq!(request_caption(&PermissionRequestTargetKind::Group, &PermissionRequestStatus::Pending), "Group - PENDING");
    assert_eq!(request_caption(&PermissionRequestTargetKind::Permission, &PermissionRequestStatus::Denied), "Permission - DENIED");
}

#[test]
fn whitespace_and_alphanumerics_match_std() {
    for u in (0u32..0x3100).chain([0xFEFF, 0x1F600, 0x10FFFF]) {
        if let Some(c) = char::from_u32(u) {
            assert_eq!(is_whitespace(c), c.is_whitespace(), "U+{:04X}", u);
            assert_eq!(char_alphanumeric(c), c.is_alphanumeric(), "U+{:04X}", u);
            if c.is_whitespace() {
                assert!(!c.is_alphanumeric());
            }
        }
    }
}
