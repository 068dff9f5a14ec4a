//! The lab host's seed request (`POST /api/test/seed-data`) and what it sets.
use vstd::prelude::*;
use crate::e2e_lab::{
    override_code_spec, set_list_domains_override, ListDomainsOverrideStore,
};
use crate::fixtures::FixtureIds;
use crate::forms::PermissionRequestCreateInput;
use crate::requests::PermissionRequestTargetKind;
use crate::text::{signed_decimal, signed_decimal_spec, str_eq, string_of};

verus! {

broadcast use vstd::string::group_string_axioms;

/// Body of the seed request.
pub struct SeedRequest {
    /// `anonymous` | `admin` | `requestor` | `outsider` | `unverified`
    pub auth: String,
    /// When true, mint fresh pending requests for isolation.
    pub refresh_requests: bool,
    /// Lab-only: `empty` | `error` forces `list_domains`; omitted or null clears the override.
    pub list_domains_mode: Option<String>,
}

/// The `auth` of a seed request that names none: anonymous.
pub fn default_auth() -> (r: String)
    ensures
        r@ == "anonymous"@,
{
    String::from_str("anonymous")
}

/// The `refresh_requests` of a seed request that names none: false.
pub fn default_refresh() -> (r: bool)
    ensures
        r == false,
{
    false
}

/// The list-domains mode of a seed request as a sequence, if it has one.
pub open spec fn seed_mode_view(body: &SeedRequest) -> Option<Seq<char>> {
    match body.list_domains_mode {
        Some(m) => Some(m@),
        None => None,
    }
}

/// Applies the seed request's `list_domains_mode`: `empty` and `error` force those overrides,
/// any other mode or none clears the override.
pub fn apply_seed_overrides(store: &mut ListDomainsOverrideStore, body: &SeedRequest)
    ensures
        final(store).code() == override_code_spec(seed_mode_view(body)),
{
    match &body.list_domains_mode {
        Some(m) => {
            if str_eq(m.as_str(), "empty") || str_eq(m.as_str(), "error") {
                set_list_domains_override(store, Some(m.as_str()));
            } else {
                set_list_domains_override(store, None);
            }
        },
        None => set_list_domains_override(store, None),
    }
}

/// Reason of a request minted by `refresh_requests`: `e2e refresh perm {millis}` for the
/// permission, `e2e refresh group {millis}` for the group.
pub open spec fn refresh_reason_spec(kind: PermissionRequestTargetKind, millis: int) -> Seq<char> {
    (match kind {
        PermissionRequestTargetKind::Permission => "e2e refresh perm "@,
        PermissionRequestTargetKind::Group => "e2e refresh group "@,
    }) + signed_decimal_spec(millis)
}

/// The reason text of a refreshed request, stamped with the current time in milliseconds.
pub fn refresh_reason(kind: PermissionRequestTargetKind, millis: i64) -> (r: String)
    ensures
        r@ == refresh_reason_spec(kind, millis as int),
{
    let mut out = match kind {
        PermissionRequestTargetKind::Permission => String::from_str("e2e refresh perm "),
        PermissionRequestTargetKind::Group => String::from_str("e2e refresh group "),
    };
    let digits = signed_decimal(millis);
    let tail = string_of(&digits, 0, digits.len());
    assert(digits@.subrange(0, digits@.len() as int) =~= digits@);
    out.append(tail.as_str());
    out
}

/// The two pending requests `refresh_requests` mints as the requestor: one for the fixture
/// permission and one for the fixture group, both stamped with `millis`.
pub fn refresh_request_inputs(fixtures: &FixtureIds, millis: i64) -> (r: (PermissionRequestCreateInput, PermissionRequestCreateInput))
    ensures
        r.0.target_kind == PermissionRequestTargetKind::Permission,
        r.0.target_id@ == fixtures.permission_id@,
        r.0.reason@ == refresh_reason_spec(PermissionRequestTargetKind::Permission, millis as int),
        r.1.target_kind == PermissionRequestTargetKind::Group,
        r.1.target_id@ == fixtures.group_id@,
        r.1.reason@ == refresh_reason_spec(PermissionRequestTargetKind::Group, millis as int),
{
    let perm = PermissionRequestCreateInput {
        target_kind: PermissionRequestTargetKind::Permission,
        target_id: fixtures.permission_id.clone(),
        reason: refresh_reason(PermissionRequestTargetKind::Permission, millis),
    };
    let group = PermissionRequestCreateInput {
        target_kind: PermissionRequestTargetKind::Group,
        target_id: fixtures.group_id.clone(),
        reason: refresh_reason(PermissionRequestTargetKind::Group, millis),
    };
    (perm, group)
}

} // verus!
