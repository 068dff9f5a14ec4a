//! Routes of the Permission app.
use vstd::prelude::*;

verus! {

broadcast use vstd::string::group_string_axioms;

/// Detail page of a permission group.
pub open spec fn group_detail_path_spec(id: Seq<char>) -> Seq<char> {
    "/permission/groups/"@ + id
}

/// Detail page of a permission.
pub open spec fn permission_detail_path_spec(id: Seq<char>) -> Seq<char> {
    "/permission/permissions/"@ + id
}

/// `/permission/groups/{id}`.
pub fn group_detail_path(id: &str) -> (r: String)
    ensures
        r@ == group_detail_path_spec(id@),
{
    let mut out = String::from_str("/permission/groups/");
    out.append(id);
    out
}

/// `/permission/permissions/{id}`.
pub fn permission_detail_path(id: &str) -> (r: String)
    ensures
        r@ == permission_detail_path_spec(id@),
{
    let mut out = String::from_str("/permission/permissions/");
    out.append(id);
    out
}

/// Detail page of an access request.
pub open spec fn request_detail_path_spec(id: Seq<char>) -> Seq<char> {
    "/permission/requests/"@ + id
}

/// `/permission/requests/{id}`.
pub fn request_detail_path(id: &str) -> (r: String)
    ensures
        r@ == request_detail_path_spec(id@),
{
    let mut out = String::from_str("/permission/requests/");
    out.append(id);
    out
}

} // verus!
