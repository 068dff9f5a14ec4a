//! The checks and payloads of the Permission app's forms and dialogs.
use vstd::prelude::*;
use crate::requests::PermissionRequestTargetKind;
use crate::text::{is_blank, str_eq, trim, trim_spec};

verus! {

broadcast use vstd::string::group_string_axioms;

/// Fields of a new permission domain.
pub struct PermissionDomainCreateInput {
    pub name: String,
    pub description: String,
}

/// Fields of a new permission.
pub struct PermissionCreateInput {
    pub name: String,
    pub description: String,
    /// Left empty by the form: the service assigns the actor's default owner group.
    pub owners_group_id: String,
    pub domain_id: String,
}

/// Fields of a new permission group.
pub struct PermissionGroupCreateInput {
    pub name: String,
    pub description: String,
}

/// Fields of a new access request.
pub struct PermissionRequestCreateInput {
    pub target_kind: PermissionRequestTargetKind,
    pub target_id: String,
    pub reason: String,
}

/// Whether text is empty once trimmed.
pub open spec fn blank(s: Seq<char>) -> bool {
    trim_spec(s).len() == 0
}

/// The list filter of an index page's search box: the trimmed text, or none when blank.
pub fn search_filter(query: &str) -> (r: Option<String>)
    ensures
        blank(query@) <==> r is None,
        r matches Some(q) ==> q@ == trim_spec(query@),
{
    let q = trim(query);
    if q.as_str().is_empty() {
        None
    } else {
        Some(q)
    }
}

/// The create-domain form: refused with `Domain name is required.` when the name is blank,
/// else submitted as typed.
pub fn domain_create_input(name: String, description: String) -> (r: Result<PermissionDomainCreateInput, String>)
    ensures
        blank(name@) <==> r is Err,
        r matches Err(e) ==> e@ == "Domain name is required."@,
        r matches Ok(p) ==> p.name@ == name@ && p.description@ == description@,
{
    if is_blank(name.as_str()) {
        Err(String::from_str("Domain name is required."))
    } else {
        Ok(PermissionDomainCreateInput { name, description })
    }
}

/// The create-permission form: refused with `Permission domain is required.` when no domain
/// is selected (blank id), else submitted as typed with an empty owner group.
pub fn permission_create_input(name: String, description: String, domain_id: String) -> (r: Result<PermissionCreateInput, String>)
    ensures
        blank(domain_id@) <==> r is Err,
        r matches Err(e) ==> e@ == "Permission domain is required."@,
        r matches Ok(p) ==> p.name@ == name@ && p.description@ == description@ && p.domain_id@
            == domain_id@ && p.owners_group_id@ == Seq::<char>::empty(),
{
    if is_blank(domain_id.as_str()) {
        Err(String::from_str("Permission domain is required."))
    } else {
        Ok(PermissionCreateInput { name, description, owners_group_id: String::new(), domain_id })
    }
}

/// The Request Access dialog: refused with `Reason is required.` when the reason is blank,
/// else a request for the target with the reason as typed.
pub fn access_request_input(target_kind: PermissionRequestTargetKind, target_id: String, reason: String) -> (r: Result<PermissionRequestCreateInput, String>)
    ensures
        blank(reason@) <==> r is Err,
        r matches Err(e) ==> e@ == "Reason is required."@,
        r matches Ok(p) ==> p.target_kind == target_kind && p.target_id@ == target_id@ && p.reason@
            == reason@,
{
    if is_blank(reason.as_str()) {
        Err(String::from_str("Reason is required."))
    } else {
        Ok(PermissionRequestCreateInput { target_kind, target_id, reason })
    }
}

/// Only users can own a group: a picked principal of another kind is refused with
/// `Only users can be owners.`.
pub fn owner_candidate(kind: &str) -> (r: Result<(), String>)
    ensures
        (kind@ == "user"@) <==> r is Ok,
        r matches Err(e) ==> e@ == "Only users can be owners."@,
{
    if str_eq(kind, "user") {
        Ok(())
    } else {
        Err(String::from_str("Only users can be owners."))
    }
}

/// Confirmation text for removing a member.
pub open spec fn member_removal_prompt_spec(label: Option<Seq<char>>) -> Seq<char> {
    match label {
        Some(l) => "Remove '"@ + l + "' from this group?"@,
        None => "Remove selected member?"@,
    }
}

/// Confirmation text for removing an owner.
pub open spec fn owner_removal_prompt_spec(label: Option<Seq<char>>) -> Seq<char> {
    match label {
        Some(l) => "Remove '"@ + l + "' as an owner of this group?"@,
        None => "Remove selected owner?"@,
    }
}

/// Option view of an optional string slice.
pub open spec fn opt_str_view(s: Option<&str>) -> Option<Seq<char>> {
    match s {
        Some(x) => Some(x@),
        None => None,
    }
}

/// The member removal dialog's question for the pending member (by label), if any.
pub fn member_removal_prompt(label: Option<&str>) -> (r: String)
    ensures
        r@ == member_removal_prompt_spec(opt_str_view(label)),
{
    match label {
        Some(l) => {
            let mut out = String::from_str("Remove '");
            out.append(l);
            out.append("' from this group?");
            out
        },
        None => String::from_str("Remove selected member?"),
    }
}

/// The owner removal dialog's question for the pending owner (by label), if any.
pub fn owner_removal_prompt(label: Option<&str>) -> (r: String)
    ensures
        r@ == owner_removal_prompt_spec(opt_str_view(label)),
{
    match label {
        Some(l) => {
            let mut out = String::from_str("Remove '");
            out.append(l);
            out.append("' as an owner of this group?");
            out
        },
        None => String::from_str("Remove selected owner?"),
    }
}

/// Caption of a member row: `group ({id})` or `user ({id})`.
pub open spec fn principal_caption_spec(is_group: bool, id: Seq<char>) -> Seq<char> {
    (if is_group { "group"@ } else { "user"@ }) + " ("@ + id + ")"@
}

/// Caption of a member or owner row.
pub fn principal_caption(is_group: bool, id: &str) -> (r: String)
    ensures
        r@ == principal_caption_spec(is_group, id@),
{
    let mut out = if is_group { String::from_str("group") } else { String::from_str("user") };
    out.append(" (");
    out.append(id);
    out.append(")");
    out
}

/// How a principal picked in the members picker joins the group.
#[derive(Clone, Copy, Debug, PartialEq, Eq, Structural)]
pub enum MemberAddKind {
    /// As a nested (child) group.
    ChildGroup,
    /// As a user member.
    User,
}

/// A picked principal from the permission-group search source joins as a child group; any
/// other pick joins as a user.
pub fn member_add_kind(source_id: &str, group_source_id: &str) -> (r: MemberAddKind)
    ensures
        (source_id@ == group_source_id@) <==> r == MemberAddKind::ChildGroup,
{
    if str_eq(source_id, group_source_id) {
        MemberAddKind::ChildGroup
    } else {
        MemberAddKind::User
    }
}

/// A search filter, once applied, is already trimmed: filtering it again gives it back.
pub proof fn lemma_search_filter_stable(query: Seq<char>)
    ensures
        !blank(query) ==> !blank(trim_spec(query)) && trim_spec(trim_spec(query)) == trim_spec(query),
{
    crate::text::lemma_trim_idempotent(query);
}

} // verus!
