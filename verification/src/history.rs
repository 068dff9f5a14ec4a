//! Relation rows of the Show History timeline: which history fields are relations, how an
//! add/remove is worded, and how a principal reference is shown.
use vstd::prelude::*;
use crate::paths::{group_detail_path, group_detail_path_spec};
use crate::text::{
    alphanumeric_pred, ascii_upper, char_alphanumeric, chars_of, contains, occurs_in, str_eq,
    string_of, to_ascii_upper, lemma_trim_keeps_alphanumerics, trim_spec,
};

verus! {

broadcast use vstd::string::group_string_axioms;

/// History fields that record grants, memberships and ownerships.
pub const RELATION_FIELDS: [&'static str; 6] = [
    "granted_users",
    "granted_groups",
    "member_users",
    "member_groups",
    "owner_users",
    "owner_groups",
];

/// Whether a history field records a relation (grant, membership or ownership).
pub open spec fn is_relation_field_spec(field: Seq<char>) -> bool {
    ||| field == "granted_users"@
    ||| field == "granted_groups"@
    ||| field == "member_users"@
    ||| field == "member_groups"@
    ||| field == "owner_users"@
    ||| field == "owner_groups"@
}

/// Whether a history field relates the subject to groups.
pub open spec fn is_group_relation_field_spec(field: Seq<char>) -> bool {
    ||| field == "granted_groups"@
    ||| field == "member_groups"@
    ||| field == "owner_groups"@
}

/// Whether `field` is one of [`RELATION_FIELDS`].
pub fn is_relation_field(field: &str) -> (r: bool)
    ensures
        r == is_relation_field_spec(field@),
{
    str_eq(field, "granted_users") || str_eq(field, "granted_groups") || str_eq(
        field,
        "member_users",
    ) || str_eq(field, "member_groups") || str_eq(field, "owner_users") || str_eq(
        field,
        "owner_groups",
    )
}

/// Whether `field` relates the subject to groups (granted, member or owner groups).
pub fn is_group_relation_field(field: &str) -> (r: bool)
    ensures
        r == is_group_relation_field_spec(field@),
{
    str_eq(field, "granted_groups") || str_eq(field, "member_groups") || str_eq(
        field,
        "owner_groups",
    )
}

/// Every group relation field is a relation field.
pub proof fn lemma_group_relation_is_relation(field: Seq<char>)
    ensures
        is_group_relation_field_spec(field) ==> is_relation_field_spec(field),
{
}

/// What follows the first `:` of `s`, if `s` has one.
pub open spec fn after_first_colon(s: Seq<char>) -> Option<Seq<char>>
    decreases s.len(),
{
    if s.len() == 0 {
        None
    } else if s[0] == ':' {
        Some(s.drop_first())
    } else {
        after_first_colon(s.drop_first())
    }
}

/// A principal reference without its `kind:` prefix (`user:alice` is shown as `alice`).
pub open spec fn bare_principal_spec(s: Seq<char>) -> Seq<char> {
    match after_first_colon(s) {
        Some(t) => t,
        None => s,
    }
}

proof fn lemma_after_first_colon_at(s: Seq<char>, i: int)
    requires
        0 <= i <= s.len(),
        forall|m: int| 0 <= m < i ==> #[trigger] s[m] != ':',
    ensures
        i < s.len() && s[i] == ':' ==> after_first_colon(s) == Some(s.subrange(i + 1, s.len() as int)),
        i == s.len() ==> after_first_colon(s) is None,
    decreases i,
{
    if i == 0 {
        if s.len() > 0 && s[0] == ':' {
            assert(s.drop_first() =~= s.subrange(1, s.len() as int));
        }
    } else {
        let t = s.drop_first();
        assert forall|m: int| 0 <= m < i - 1 implies #[trigger] t[m] != ':' by {
            assert(t[m] == s[m + 1]);
        }
        lemma_after_first_colon_at(t, i - 1);
        if i < s.len() {
            assert(t[i - 1] == s[i]);
            assert(t.subrange(i, t.len() as int) =~= s.subrange(i + 1, s.len() as int));
        }
    }
}

/// `raw` without its `kind:` prefix: the text after the first `:`, or all of `raw`.
pub fn bare_principal_id(raw: &str) -> (r: String)
    ensures
        r@ == bare_principal_spec(raw@),
{
    let v = chars_of(raw);
    let mut i: usize = 0;
    while i < v.len() && v[i] != ':'
        invariant
            v@ == raw@,
            i <= v.len(),
            forall|m: int| 0 <= m < i ==> #[trigger] v@[m] != ':',
        decreases v.len() - i,
    {
        i = i + 1;
    }
    proof {
        lemma_after_first_colon_at(v@, i as int);
    }
    if i < v.len() {
        string_of(&v, i + 1, v.len())
    } else {
        string_of(&v, 0, v.len())
    }
}

/// A principal id without `:` is shown whole; one with a `:` is shown from just after its
/// first `:`, so the reference is the colon-free kind, a `:`, and the shown id.
pub proof fn lemma_bare_principal_law(raw: Seq<char>)
    ensures
        (forall|i: int| 0 <= i < raw.len() ==> raw[i] != ':') ==> bare_principal_spec(raw) == raw,
        (exists|i: int| 0 <= i < raw.len() && raw[i] == ':') ==> exists|k: int|
            0 <= k < raw.len() && raw[k] == ':' && (forall|m: int| 0 <= m < k ==> raw[m] != ':')
                && #[trigger] raw.subrange(k + 1, raw.len() as int) == bare_principal_spec(raw),
{
    if exists|i: int| 0 <= i < raw.len() && raw[i] == ':' {
        let k = first_colon(raw, raw.len() as int);
        lemma_after_first_colon_at(raw, k);
    } else {
        lemma_after_first_colon_at(raw, raw.len() as int);
    }
}

/// Index of the first `:` of `s` among its first `n` characters, when there is one.
proof fn first_colon(s: Seq<char>, n: int) -> (k: int)
    requires
        0 <= n <= s.len(),
        exists|i: int| 0 <= i < n && s[i] == ':',
    ensures
        0 <= k < n,
        s[k] == ':',
        forall|m: int| 0 <= m < k ==> s[m] != ':',
    decreases n,
{
    if exists|i: int| 0 <= i < n - 1 && s[i] == ':' {
        first_colon(s, n - 1)
    } else {
        n - 1
    }
}

/// The alphanumeric characters of `s`, in order.
pub open spec fn alphanumerics(s: Seq<char>) -> Seq<char> {
    s.filter(alphanumeric_pred())
}


/// Avatar initials for a principal id: its first two alphanumeric characters, ASCII letters
/// upper-cased; `?` when it has none (a blank id has none, as no whitespace character is
/// alphanumeric).
pub open spec fn initials_spec(id: Seq<char>) -> Seq<char> {
    let a = alphanumerics(id);
    if a.len() == 0 {
        seq!['?']
    } else if a.len() == 1 {
        seq![ascii_upper(a[0])]
    } else {
        seq![ascii_upper(a[0]), ascii_upper(a[1])]
    }
}

/// The first (at most two) alphanumeric characters of `v`.
fn first_two_alphanumerics(v: &Vec<char>) -> (r: Vec<char>)
    ensures
        r@ == alphanumerics(v@).take(if alphanumerics(v@).len() < 2 { alphanumerics(v@).len() as int } else { 2 }),
{
    let ghost pred = alphanumeric_pred();
    let mut out: Vec<char> = Vec::new();
    let mut i: usize = 0;
    while i < v.len() && out.len() < 2
        invariant
            i <= v.len(),
            out.len() <= 2,
            pred == alphanumeric_pred(),
            out@ == v@.take(i as int).filter(pred),
        decreases v.len() - i,
    {
        let c = v[i];
        let keep = char_alphanumeric(c);
        if keep {
            out.push(c);
        }
        proof {
            reveal_with_fuel(Seq::<_>::filter, 1);
            let s1 = v@.take(i + 1);
            assert(s1.drop_last() =~= v@.take(i as int));
            assert(s1.last() == c);
            assert(pred(c) == keep);
        }
        i = i + 1;
    }
    proof {
        let f = v@.filter(pred);
        assert(v@ =~= v@.take(i as int) + v@.skip(i as int));
        Seq::filter_distributes_over_add(v@.take(i as int), v@.skip(i as int), pred);
        assert(f == out@ + v@.skip(i as int).filter(pred));
        assert(alphanumerics(v@) == f);
        if out.len() < 2 {
            assert(i == v.len());
            assert(v@.skip(i as int) =~= Seq::<char>::empty());
            assert(v@.skip(i as int).filter(pred) =~= Seq::<char>::empty());
            assert(f =~= out@);
            assert(f.take(f.len() as int) =~= f);
        } else {
            assert(f.take(2) =~= out@);
        }
    }
    out
}

/// Avatar initials for a principal id (`alice` gives `AL`, a blank id gives `?`).
pub fn initials_from_id(id: &str) -> (r: String)
    ensures
        r@ == initials_spec(id@),
{
    let v = chars_of(id);
    let firsts = first_two_alphanumerics(&v);
    let mut out: Vec<char> = Vec::new();
    if firsts.len() == 0 {
        out.push('?');
    } else if firsts.len() == 1 {
        out.push(to_ascii_upper(firsts[0]));
    } else {
        let a = to_ascii_upper(firsts[0]);
        let b = to_ascii_upper(firsts[1]);
        out.push(a);
        out.push(b);
    }
    proof {
        assert(out@ =~= initials_spec(id@));
    }
    string_of(&out, 0, out.len())
}

/// The initials come out the same when computed, as the page does, from the trimmed id:
/// `?` when it is blank, else its first two alphanumerics.
pub proof fn lemma_initials_of_trimmed_id(id: Seq<char>)
    ensures
        initials_spec(id) == ({
            let t = trim_spec(id);
            let a = alphanumerics(t);
            if t.len() == 0 || a.len() == 0 {
                seq!['?']
            } else if a.len() == 1 {
                seq![ascii_upper(a[0])]
            } else {
                seq![ascii_upper(a[0]), ascii_upper(a[1])]
            }
        }),
{
    lemma_trim_keeps_alphanumerics(id);
    if trim_spec(id).len() == 0 {
        assert(trim_spec(id) =~= Seq::<char>::empty());
        assert(alphanumerics(trim_spec(id)) =~= Seq::<char>::empty());
    }
}

/// Word for a relation change: `Added` when a value appears, `Removed` when it disappears.
pub open spec fn relation_change_verb_spec(old_value: Seq<char>, new_value: Seq<char>) -> Option<Seq<char>> {
    if old_value.len() == 0 && new_value.len() != 0 {
        Some("Added"@)
    } else if old_value.len() != 0 && new_value.len() == 0 {
        Some("Removed"@)
    } else {
        None
    }
}

/// Verb for a relation add/remove row (`Added` / `Removed`), or `None` if neither.
pub fn relation_change_verb(old_value: &str, new_value: &str) -> (r: Option<&'static str>)
    ensures
        match relation_change_verb_spec(old_value@, new_value@) {
            Some(w) => r is Some && r->0@ == w,
            None => r is None,
        },
{
    if old_value.is_empty() && !new_value.is_empty() {
        Some("Added")
    } else if !old_value.is_empty() && new_value.is_empty() {
        Some("Removed")
    } else {
        None
    }
}

/// A change is an addition exactly when the reverse change is a removal.
pub proof fn lemma_relation_verb_reverses(a: Seq<char>, b: Seq<char>)
    ensures
        relation_change_verb_spec(a, b) == Some("Added"@) <==> relation_change_verb_spec(b, a) == Some("Removed"@),
        relation_change_verb_spec(a, b) is None <==> relation_change_verb_spec(b, a) is None,
{
    reveal_strlit("Added");
    reveal_strlit("Removed");
}

/// Whether a history load error means the viewer may not see the history (as opposed to a
/// failed load): its message mentions `Not authorized` or `Authentication required`.
pub open spec fn is_history_acl_error_spec(message: Seq<char>) -> bool {
    occurs_in(message, "Not authorized"@) || occurs_in(message, "Authentication required"@)
}

/// A message is an access error exactly when `Not authorized` or `Authentication required`
/// appears in it, whatever text surrounds it.
pub proof fn lemma_acl_error_by_containment(prefix: Seq<char>, suffix: Seq<char>, message: Seq<char>)
    ensures
        is_history_acl_error_spec(prefix + "Not authorized"@ + suffix),
        is_history_acl_error_spec(prefix + "Authentication required"@ + suffix),
        history_load_state_spec(Some(prefix + "Authentication required"@ + suffix)) == HistoryLoadState::AccessDenied,
        history_load_state_spec(Some(prefix + "Not authorized"@ + suffix)) == HistoryLoadState::AccessDenied,
        (forall|i: int| 0 <= i && i + 14 <= message.len() ==> #[trigger] message.subrange(i, i + 14) != "Not authorized"@)
            && (forall|i: int| 0 <= i && i + 23 <= message.len() ==> #[trigger] message.subrange(i, i + 23) != "Authentication required"@)
            ==> !is_history_acl_error_spec(message) && history_load_state_spec(Some(message)) == HistoryLoadState::LoadFailed,
{
    reveal_strlit("Not authorized");
    reveal_strlit("Authentication required");
    let a = "Not authorized"@;
    let b = "Authentication required"@;
    let i: int = prefix.len() as int;
    let m1 = prefix + a + suffix;
    assert(m1.subrange(i, i + a.len()) =~= a);
    let m2 = prefix + b + suffix;
    assert(m2.subrange(i, i + b.len()) =~= b);
}

/// Classifies a history load error by its message.
pub fn is_history_acl_error(message: &str) -> (r: bool)
    ensures
        r == is_history_acl_error_spec(message@),
{
    contains(message, "Not authorized") || contains(message, "Authentication required")
}

/// The Show History dialog loads a timeline only for a named subject: with an empty kind or
/// id it shows `No history entries yet.` instead.
pub fn history_subject_ready(subject_kind: &str, subject_id: &str) -> (r: bool)
    ensures
        r == (subject_kind@.len() != 0 && subject_id@.len() != 0),
{
    !subject_kind.is_empty() && !subject_id.is_empty()
}

/// What the history timeline shows after a page load.
#[derive(Clone, Copy, Debug, PartialEq, Eq, Structural)]
pub enum HistoryLoadState {
    /// The rows.
    Loaded,
    /// `Not authorized to view this history`.
    AccessDenied,
    /// `Failed to load record history`.
    LoadFailed,
}

/// The timeline state after a page load that succeeded (`None`) or failed with a message.
pub open spec fn history_load_state_spec(error: Option<Seq<char>>) -> HistoryLoadState {
    match error {
        None => HistoryLoadState::Loaded,
        Some(m) => if is_history_acl_error_spec(m) {
            HistoryLoadState::AccessDenied
        } else {
            HistoryLoadState::LoadFailed
        },
    }
}

/// Classifies a page load: loaded, denied (an access error), or failed (any other error).
pub fn history_load_state(error: Option<&str>) -> (r: HistoryLoadState)
    ensures
        r == history_load_state_spec(match error {
            Some(m) => Some(m@),
            None => None,
        }),
{
    match error {
        None => HistoryLoadState::Loaded,
        Some(m) => if is_history_acl_error(m) {
            HistoryLoadState::AccessDenied
        } else {
            HistoryLoadState::LoadFailed
        },
    }
}

/// What a relation row of the history timeline shows.
pub struct RelationRow {
    /// `Added` or `Removed`.
    pub verb: &'static str,
    /// The principal id without its `kind:` prefix.
    pub display_id: String,
    /// Avatar initials of `display_id`.
    pub initials: String,
    /// Whether the principal is a group, shown as a link to its detail page.
    pub link_group: bool,
    /// Detail page of the group, `/permission/groups/{display_id}`.
    pub group_href: String,
}

/// The principal reference a relation change is about: the new value of an addition, the
/// old value of a removal.
pub open spec fn relation_target_spec(old_value: Seq<char>, new_value: Seq<char>) -> Seq<char> {
    if old_value.len() == 0 { new_value } else { old_value }
}

/// The row a field change shows as: `None` when the field is not a relation field or the
/// change is neither an addition nor a removal.
pub open spec fn relation_row_ok(field: Seq<char>, old_value: Seq<char>, new_value: Seq<char>, r: Option<RelationRow>) -> bool {
    if !is_relation_field_spec(field) || relation_change_verb_spec(old_value, new_value) is None {
        r is None
    } else {
        let target = relation_target_spec(old_value, new_value);
        let id = bare_principal_spec(target);
        &&& r is Some
        &&& Some(r->0.verb@) == relation_change_verb_spec(old_value, new_value)
        &&& r->0.display_id@ == id
        &&& r->0.initials@ == initials_spec(id)
        &&& r->0.link_group == is_group_relation_field_spec(field)
        &&& r->0.group_href@ == group_detail_path_spec(id)
    }
}

/// A relation row shows an addition as `Added` with the new value's principal and a removal
/// as `Removed` with the old value's; rows come only from relation fields, and only group
/// fields link to the group page of the principal shown.
pub proof fn lemma_relation_row_law(field: Seq<char>, old_value: Seq<char>, new_value: Seq<char>, r: Option<RelationRow>)
    requires
        relation_row_ok(field, old_value, new_value, r),
    ensures
        r is Some ==> is_relation_field_spec(field),
        r is Some <==> is_relation_field_spec(field) && (old_value.len() == 0) != (new_value.len() == 0),
        r is Some && old_value.len() == 0 ==> r->0.verb@ == "Added"@ && r->0.display_id@
            == bare_principal_spec(new_value),
        r is Some && new_value.len() == 0 ==> r->0.verb@ == "Removed"@ && r->0.display_id@
            == bare_principal_spec(old_value),
        r is Some ==> r->0.group_href@ == "/permission/groups/"@ + r->0.display_id@,
        r is Some ==> (r->0.link_group <==> (field == "granted_groups"@ || field == "member_groups"@
            || field == "owner_groups"@)),
{
}

/// Decides how a `permission_history` field change renders: as a relation row, or not at all
/// (`None`, leaving it to the default renderer).
pub fn relation_row(field: &str, old_value: &str, new_value: &str) -> (r: Option<RelationRow>)
    ensures
        relation_row_ok(field@, old_value@, new_value@, r),
{
    if !is_relation_field(field) {
        return None;
    }
    let verb = match relation_change_verb(old_value, new_value) {
        Some(v) => v,
        None => return None,
    };
    let target = if old_value.is_empty() { new_value } else { old_value };
    let display_id = bare_principal_id(target);
    let initials = initials_from_id(display_id.as_str());
    let link_group = is_group_relation_field(field);
    let group_href = group_detail_path(display_id.as_str());
    Some(RelationRow { verb, display_id, initials, link_group, group_href })
}

} // verus!
