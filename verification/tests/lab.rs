use gauge_app::fixtures::bootstrap_fixture_ids;
use gauge_app::requests::PermissionRequestTargetKind;
use gauge_app::seed::{refresh_reason, refresh_request_inputs};
use gauge_app::permissions::gauge_admin_manifest;
use gauge_app::e2e_lab::{list_domains_override, set_list_domains_override, ListDomainsOverride, ListDomainsOverrideStore};
use gauge_app::fixtures::{e2e_fixtures, store_fixtures, FixtureIds, FixtureStore};
use gauge_app::seed::{apply_seed_overrides, default_auth, default_refresh, SeedRequest};

fn sample() -> FixtureIds {
    FixtureIds {
        domain_a_id: "d1".into(),
        domain_b_id: "d2".into(),
        permission_id: "p1".into(),
        permission_name: "CanDeploy".into(),
        group_id: "g1".into(),
        group_name: "Deployers".into(),
        pending_perm_request_id: "r1".into(),
        pending_group_request_id: "r2".into(),
        child_group_id: "g2".into(),
    }
}

#[test]
fn override_read_after_write() {
    let mut store = ListDomainsOverrideStore::new();
    assert_eq!(list_domains_override(&store), ListDomainsOverride::Normal);
    set_list_domains_override(&mut store, Some("empty"));
    assert_eq!(list_domains_override(&store), ListDomainsOverride::Empty);
    set_list_domains_override(&mut store, Some("error"));
    assert_eq!(list_domains_override(&store), ListDomainsOverride::Error);
    set_list_domains_override(&mut store, Some("EMPTY"));
    assert_eq!(list_domains_override(&store), ListDomainsOverride::Normal);
    set_list_domains_override(&mut store, Some("error"));
    set_list_domains_override(&mut store, None);
    assert_eq!(list_domains_override(&store), ListDomainsOverride::Normal);
}

#[test]
fn seed_defaults() {
    assert_eq!(default_auth(), "anonymous");
    assert!(!default_refresh());
}

#[test]
fn seed_applies_and_clears_override() {
    let mut store = ListDomainsOverrideStore::new();
    let mut body = SeedRequest { auth: default_auth(), refresh_requests: false, list_domains_mode: Some("error".into()) };
    apply_seed_overrides(&mut store, &body);
    assert_eq!(list_domains_override(&store), ListDomainsOverride::Error);
    body.list_domains_mode = Some("bogus".into());
    apply_seed_overrides(&mut store, &body);
    assert_eq!(list_domains_override(&store), ListDomainsOverride::Normal);
    body.list_domains_mode = Some("empty".into());
    apply_seed_overrides(&mut store, &body);
    assert_eq!(list_domains_override(&store), ListDomainsOverride::Empty);
    body.list_domains_mode = None;
    apply_seed_overrides(&mut store, &body);
    assert_eq!(list_domains_override(&store), ListDomainsOverride::Normal);
}

#[test]
fn fixtures_read_after_write() {
    let mut store = FixtureStore::new(FixtureIds::default());
    assert_eq!(e2e_fixtures(&store).permission_id, "");
    store_fixtures(&mut store, sample());
    let got = e2e_fixtures(&store);
    assert_eq!(got.domain_a_id, "d1");
    assert_eq!(got.group_name, "Deployers");
    assert_eq!(got.pending_group_request_id, "r2");
    assert_eq!(got.child_group_id, "g2");
}

#[test]
fn refreshed_requests_keep_other_ids() {
    let f = sample().with_pending_requests("r9".into(), "r10".into());
    assert_eq!(f.pending_perm_request_id, "r9");
    assert_eq!(f.pending_group_request_id, "r10");
    assert_eq!(f.permission_id, "p1");
    assert_eq!(f.group_id, "g1");
    assert_eq!(f.domain_b_id, "d2");
}

#[test]
fn bootstrap_ids_name_the_fixtures() {
    let f = bootstrap_fixture_ids("da".into(), "db".into(), "p".into(), "g".into(), "c".into(), "rp".into(), "rg".into());
    assert_eq!(f.permission_name, "CanDeploy");
    assert_eq!(f.group_name, "Deployers");
    assert_eq!(f.domain_a_id, "da");
    assert_eq!(f.domain_b_id, "db");
    assert_eq!(f.permission_id, "p");
    assert_eq!(f.group_id, "g");
    assert_eq!(f.child_group_id, "c");
    assert_eq!(f.pending_perm_request_id, "rp");
    assert_eq!(f.pending_group_request_id, "rg");
}

#[test]
fn refresh_reasons_and_inputs() {
    assert_eq!(refresh_reason(PermissionRequestTargetKind::Permission, 1700000000123), "e2e refresh perm 1700000000123");
    assert_eq!(refresh_reason(PermissionRequestTargetKind::Group, 0), "e2e refresh group 0");
    assert_eq!(refresh_reason(PermissionRequestTargetKind::Group, -42), "e2e refresh group -42");
    assert_eq!(refresh_reason(PermissionRequestTargetKind::Permission, i64::MIN), format!("e2e refresh perm {}", i64::MIN));
    assert_eq!(refresh_reason(PermissionRequestTargetKind::Permission, i64::MAX), format!("e2e refresh perm {}", i64::MAX));
    let (p, g) = refresh_request_inputs(&sample(), 7);
    assert_eq!(p.target_kind, PermissionRequestTargetKind::Permission);
    assert_eq!(p.target_id, "p1");
    assert_eq!(p.reason, "e2e refresh perm 7");
    assert_eq!(g.target_kind, PermissionRequestTargetKind::Group);
    assert_eq!(g.target_id, "g1");
    assert_eq!(g.reason, "e2e refresh group 7");
}

#[test]
fn admin_manifest() {
    let m = gauge_admin_manifest();
    assert_eq!(m.app_id, "permission");
    assert_eq!(m.domains.len(), 1);
    assert_eq!(m.domains[0].key, "gauge");
    assert_eq!(m.domains[0].name, "Gauge");
    assert_eq!(m.domains[0].description, "Permission administration");
    assert_eq!(m.domains[0].permissions.len(), 1);
    assert_eq!(m.domains[0].permissions[0].name, "GaugeAdmin");
    assert_eq!(m.domains[0].permissions[0].description, "Administer permissions, groups, and domains");
}
