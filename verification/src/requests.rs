//! Access requests: their statuses and targets, and how the request pages label them.
use vstd::prelude::*;

verus! {

/// Status of a permission request.
#[derive(Clone, Copy, Debug, PartialEq, Eq, Structural)]
pub enum PermissionRequestStatus {
    Pending,
    Approved,
    Denied,
}

/// What a permission request asks for.
#[derive(Clone, Copy, Debug, PartialEq, Eq, Structural)]
pub enum PermissionRequestTargetKind {
    Permission,
    Group,
}

/// A decision on a pending request.
#[derive(Clone, Copy, Debug, PartialEq, Eq, Structural)]
pub enum PermissionRequestDecision {
    Approve,
    Deny,
}

/// Upper-case label of a request status.
pub open spec fn status_label_spec(status: PermissionRequestStatus) -> Seq<char> {
    match status {
        PermissionRequestStatus::Pending => "PENDING"@,
        PermissionRequestStatus::Approved => "APPROVED"@,
        PermissionRequestStatus::Denied => "DENIED"@,
    }
}

/// Label of a request target kind.
pub open spec fn target_label_spec(kind: PermissionRequestTargetKind) -> Seq<char> {
    match kind {
        PermissionRequestTargetKind::Permission => "Permission"@,
        PermissionRequestTargetKind::Group => "Group"@,
    }
}

/// Status label on the request detail page.
pub fn status_label(status: &PermissionRequestStatus) -> (r: &'static str)
    ensures
        r@ == status_label_spec(*status),
{
    match status {
        PermissionRequestStatus::Pending => "PENDING",
        PermissionRequestStatus::Approved => "APPROVED",
        PermissionRequestStatus::Denied => "DENIED",
    }
}

/// Status label in the request inbox.
pub fn request_status_label(status: &PermissionRequestStatus) -> (r: &'static str)
    ensures
        r@ == status_label_spec(*status),
{
    match status {
        PermissionRequestStatus::Pending => "PENDING",
        PermissionRequestStatus::Approved => "APPROVED",
        PermissionRequestStatus::Denied => "DENIED",
    }
}

/// Target label in the request inbox.
pub fn request_target_label(kind: &PermissionRequestTargetKind) -> (r: &'static str)
    ensures
        r@ == target_label_spec(*kind),
{
    match kind {
        PermissionRequestTargetKind::Permission => "Permission",
        PermissionRequestTargetKind::Group => "Group",
    }
}

/// Caption of a request row in the inbox: `{target} - {status}`.
pub open spec fn request_caption_spec(kind: PermissionRequestTargetKind, status: PermissionRequestStatus) -> Seq<char> {
    target_label_spec(kind) + " - "@ + status_label_spec(status)
}

/// The caption under a request row's target, e.g. `Group - PENDING`.
pub fn request_caption(kind: &PermissionRequestTargetKind, status: &PermissionRequestStatus) -> (r: String)
    ensures
        r@ == request_caption_spec(*kind, *status),
{
    let mut out = String::from_str(request_target_label(kind));
    out.append(" - ");
    out.append(request_status_label(status));
    out
}

/// Approve and deny actions show only to those who may decide, and only on pending requests.
pub open spec fn decision_actions_shown_spec(can_decide: bool, status: PermissionRequestStatus) -> bool {
    can_decide && status == PermissionRequestStatus::Pending
}

/// Whether the request detail page offers approve/deny.
pub fn decision_actions_shown(can_decide: bool, status: &PermissionRequestStatus) -> (r: bool)
    ensures
        r == decision_actions_shown_spec(can_decide, *status),
{
    let is_pending = match status {
        PermissionRequestStatus::Pending => true,
        _ => false,
    };
    can_decide && is_pending
}

/// Approve and deny are offered only on a pending request, and on a pending request exactly
/// to those who may decide.
pub proof fn lemma_decision_actions_only_pending(can_decide: bool, status: PermissionRequestStatus)
    ensures
        decision_actions_shown_spec(can_decide, status) ==> status == PermissionRequestStatus::Pending,
        status != PermissionRequestStatus::Pending ==> !decision_actions_shown_spec(can_decide, status),
        decision_actions_shown_spec(can_decide, PermissionRequestStatus::Pending) == can_decide,
        !decision_actions_shown_spec(false, status),
{
}

/// An inbox caption starts with the target's label, ends with the request's own status
/// label (the one the detail page shows), and tells statuses and targets apart.
pub proof fn lemma_request_caption_law(
    kind: PermissionRequestTargetKind,
    status: PermissionRequestStatus,
    other_kind: PermissionRequestTargetKind,
    other_status: PermissionRequestStatus,
)
    ensures
        ({
            let c = request_caption_spec(kind, status);
            let l = status_label_spec(status);
            let t = target_label_spec(kind);
            &&& c.len() == t.len() + 3 + l.len()
            &&& c.subrange(0, t.len() as int) == t
            &&& c.subrange(c.len() - l.len(), c.len() as int) == l
        }),
        request_caption_spec(kind, status) == request_caption_spec(other_kind, other_status) ==> kind
            == other_kind && status == other_status,
{
    reveal_strlit("PENDING");
    reveal_strlit("APPROVED");
    reveal_strlit("DENIED");
    reveal_strlit("Permission");
    reveal_strlit("Group");
    reveal_strlit(" - ");
    let c = request_caption_spec(kind, status);
    let l = status_label_spec(status);
    let t = target_label_spec(kind);
    assert(c.subrange(0, t.len() as int) =~= t);
    assert(c.subrange(c.len() - l.len(), c.len() as int) =~= l);
    let c2 = request_caption_spec(other_kind, other_status);
    if c == c2 {
        if kind != other_kind {
            assert(c[0] != c2[0]);
        }
        if status != other_status {
            assert(status_label_spec(status).len() != status_label_spec(other_status).len());
        }
    }
}

/// Distinct statuses have distinct labels.
pub proof fn lemma_status_labels_distinct(a: PermissionRequestStatus, b: PermissionRequestStatus)
    ensures
        a != b ==> status_label_spec(a) != status_label_spec(b),
{
    reveal_strlit("PENDING");
    reveal_strlit("APPROVED");
    reveal_strlit("DENIED");
    if a != b {
        assert(status_label_spec(a)[0] != status_label_spec(b)[0]);
    }
}

} // verus!
