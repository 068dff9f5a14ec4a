//! The decisions of the Permission app's server functions: session gating, error wording,
//! the lab override of `list_domains`, the Show History source gate and principal search
//! limits. The service calls themselves are made by the host.
use vstd::prelude::*;
use crate::e2e_lab::ListDomainsOverride;
use crate::text::{str_eq, trim, trim_spec};

verus! {

broadcast use vstd::string::group_string_axioms;

/// Permission name required for gauge admin mutations (the manifest's `GaugeAdmin`).
pub const GAUGE_ADMIN_PERMISSION: &'static str = "GaugeAdmin";

/// Hard cap so admin callers cannot force unbounded principal scans.
pub const MAX_PRINCIPAL_SEARCH_RESULTS: u32 = 50;

/// Every endpoint requires an authenticated session: fails with `Authentication required`
/// when the request carries no session user.
pub fn require_session(session_user_id: Option<&str>) -> (r: Result<(), String>)
    ensures
        session_user_id is Some <==> r is Ok,
        r matches Err(e) ==> e@ == "Authentication required"@,
{
    match session_user_id {
        Some(_) => Ok(()),
        None => Err(String::from_str("Authentication required")),
    }
}

/// The UI-facing message of a failed service call: `Failed to {op}: {detail}`.
pub open spec fn service_error_message_spec(op: Seq<char>, detail: Seq<char>) -> Seq<char> {
    "Failed to "@ + op + ": "@ + detail
}

/// Words a failed service call for the UI.
pub fn service_error_message(op: &str, detail: &str) -> (r: String)
    ensures
        r@ == service_error_message_spec(op@, detail@),
{
    let mut out = String::from_str("Failed to ");
    out.append(op);
    out.append(": ");
    out.append(detail);
    out
}

/// The id returned for a created record: its primary key, or empty when it has none.
pub fn created_record_id(id: Option<String>) -> (r: String)
    ensures
        match id {
            Some(s) => r@ == s@,
            None => r@ == Seq::<char>::empty(),
        },
{
    match id {
        Some(s) => s,
        None => String::new(),
    }
}

/// Show History serves only permissions and permission groups.
pub open spec fn is_history_source_table_spec(table: Seq<char>) -> bool {
    table == "permission"@ || table == "permission_group"@
}

/// Whether a history source table may be paged (`permission` or `permission_group`);
/// any other table is refused as access denied.
pub fn is_history_source_table(table: &str) -> (r: bool)
    ensures
        r == is_history_source_table_spec(table@),
{
    str_eq(table, "permission") || str_eq(table, "permission_group")
}

/// What `list_domains` answers under the lab override without calling the service:
/// `Empty` answers no domains, `Error` answers `Failed to list domains: e2e forced failure`,
/// `Normal` answers nothing (the service is called).
pub fn list_domains_short_circuit<T>(mode: ListDomainsOverride) -> (r: Option<Result<Vec<T>, String>>)
    ensures
        mode == ListDomainsOverride::Normal <==> r is None,
        mode == ListDomainsOverride::Empty ==> (r matches Some(Ok(v)) && v@.len() == 0),
        mode == ListDomainsOverride::Error ==> (r matches Some(Err(e)) && e@
            == "Failed to list domains: e2e forced failure"@),
{
    match mode {
        ListDomainsOverride::Empty => Some(Ok(Vec::new())),
        ListDomainsOverride::Error => Some(Err(String::from_str("Failed to list domains: e2e forced failure"))),
        ListDomainsOverride::Normal => None,
    }
}

/// `max_results.clamp(1, MAX_PRINCIPAL_SEARCH_RESULTS)`.
pub open spec fn principal_search_limit_spec(max_results: u32) -> u32 {
    if max_results < 1 {
        1
    } else if max_results > MAX_PRINCIPAL_SEARCH_RESULTS {
        MAX_PRINCIPAL_SEARCH_RESULTS
    } else {
        max_results
    }
}

/// Per-source result cap of a principal search: the requested count, between 1 and
/// [`MAX_PRINCIPAL_SEARCH_RESULTS`].
pub fn principal_search_limit(max_results: u32) -> (r: u32)
    ensures
        r == principal_search_limit_spec(max_results),
        1 <= r <= MAX_PRINCIPAL_SEARCH_RESULTS,
{
    if max_results < 1 {
        1
    } else if max_results > MAX_PRINCIPAL_SEARCH_RESULTS {
        MAX_PRINCIPAL_SEARCH_RESULTS
    } else {
        max_results
    }
}

/// A requested count between 1 and the cap is used as is; smaller requests are raised to
/// 1 and larger ones lowered to the cap; the limit never decreases as the request grows.
pub proof fn lemma_principal_limit_law(m: u32, other: u32)
    ensures
        1 <= m <= MAX_PRINCIPAL_SEARCH_RESULTS ==> principal_search_limit_spec(m) == m,
        m == 0 ==> principal_search_limit_spec(m) == 1,
        m > MAX_PRINCIPAL_SEARCH_RESULTS ==> principal_search_limit_spec(m) == MAX_PRINCIPAL_SEARCH_RESULTS,
        m <= other ==> principal_search_limit_spec(m) <= principal_search_limit_spec(other),
{
}

/// The text a principal search runs with: the query trimmed, or empty when there is none.
pub fn principal_query_text(query: Option<String>) -> (r: String)
    ensures
        match query {
            Some(q) => r@ == trim_spec(q@),
            None => r@ == Seq::<char>::empty(),
        },
{
    match query {
        Some(q) => trim(q.as_str()),
        None => String::new(),
    }
}

/// Why a Show History page is refused.
pub enum HistoryPageError {
    /// No session: `Authentication required`.
    AuthenticationRequired,
    /// A service the page needs failed; holds the UI message (`Failed to build Valence: ..`).
    ServiceFailed(String),
    /// The viewer may not see this history (record history's access-denied message).
    AccessDenied,
    /// `Failed to load record history`.
    LoadFailed,
}

/// The answer of the can-edit check on the history subject.
#[derive(Clone, Copy, Debug, PartialEq, Eq, Structural)]
pub enum CanViewAnswer {
    /// The actor can edit the subject.
    Allowed,
    /// The actor cannot.
    Denied,
    /// The check itself failed.
    CheckFailed,
}

/// The answer of loading the subject's history rows.
#[derive(Clone, Copy, Debug, PartialEq, Eq, Structural)]
pub enum HistoryRowsAnswer {
    /// The rows were read.
    Loaded,
    /// The parent's read access refused them.
    AccessDenied,
    /// Any other failure.
    Failed,
}

/// Refusal kinds, for contracts (the service message aside).
pub ghost enum HistoryRefusal {
    AuthenticationRequired,
    ServiceFailed(Seq<char>),
    AccessDenied,
    LoadFailed,
}

/// The refusal a history page error stands for.
pub open spec fn refusal_view(e: HistoryPageError) -> HistoryRefusal {
    match e {
        HistoryPageError::AuthenticationRequired => HistoryRefusal::AuthenticationRequired,
        HistoryPageError::ServiceFailed(m) => HistoryRefusal::ServiceFailed(m@),
        HistoryPageError::AccessDenied => HistoryRefusal::AccessDenied,
        HistoryPageError::LoadFailed => HistoryRefusal::LoadFailed,
    }
}

/// The Show History gate, stage by stage: a session, then the request's Valence, then a
/// `permission` or `permission_group` source, then can-edit on the subject, then the
/// history rows, then every row's view. The first stage that fails decides the refusal;
/// `None` means the page is served.
pub open spec fn history_page_access_spec(
    has_session: bool,
    valence_error: Option<Seq<char>>,
    table: Seq<char>,
    can_view: CanViewAnswer,
    rows: HistoryRowsAnswer,
    views_mapped: bool,
) -> Option<HistoryRefusal> {
    if !has_session {
        Some(HistoryRefusal::AuthenticationRequired)
    } else if valence_error is Some {
        Some(HistoryRefusal::ServiceFailed(service_error_message_spec("build Valence"@, valence_error->0)))
    } else if !is_history_source_table_spec(table) {
        Some(HistoryRefusal::AccessDenied)
    } else if can_view == CanViewAnswer::CheckFailed {
        Some(HistoryRefusal::LoadFailed)
    } else if can_view == CanViewAnswer::Denied {
        Some(HistoryRefusal::AccessDenied)
    } else if rows == HistoryRowsAnswer::AccessDenied {
        Some(HistoryRefusal::AccessDenied)
    } else if rows == HistoryRowsAnswer::Failed {
        Some(HistoryRefusal::LoadFailed)
    } else if !views_mapped {
        Some(HistoryRefusal::LoadFailed)
    } else {
        None
    }
}

/// Session, Valence and source table, decided before can-edit is asked.
pub fn history_gate_source(has_session: bool, valence_error: Option<&str>, table: &str) -> (r: Result<(), HistoryPageError>)
    ensures
        r is Ok <==> (has_session && valence_error is None && is_history_source_table_spec(table@)),
        r matches Err(e) ==> Some(refusal_view(e)) == history_page_access_spec(
            has_session,
            match valence_error { Some(v) => Some(v@), None => None },
            table@,
            CanViewAnswer::Allowed,
            HistoryRowsAnswer::Loaded,
            true,
        ),
{
    if !has_session {
        return Err(HistoryPageError::AuthenticationRequired);
    }
    match valence_error {
        Some(detail) => {
            return Err(HistoryPageError::ServiceFailed(service_error_message("build Valence", detail)));
        },
        None => {},
    }
    if !is_history_source_table(table) {
        return Err(HistoryPageError::AccessDenied);
    }
    Ok(())
}

/// The can-edit stage: a failed check is a load failure, a denial is access denied.
pub fn history_gate_can_view(can_view: CanViewAnswer) -> (r: Result<(), HistoryPageError>)
    ensures
        r is Ok <==> can_view == CanViewAnswer::Allowed,
        can_view == CanViewAnswer::Denied ==> (r matches Err(e) && refusal_view(e) == HistoryRefusal::AccessDenied),
        can_view == CanViewAnswer::CheckFailed ==> (r matches Err(e) && refusal_view(e) == HistoryRefusal::LoadFailed),
{
    match can_view {
        CanViewAnswer::Allowed => Ok(()),
        CanViewAnswer::Denied => Err(HistoryPageError::AccessDenied),
        CanViewAnswer::CheckFailed => Err(HistoryPageError::LoadFailed),
    }
}

/// The history rows stage: the parent's access refusal is access denied, any other failure a
/// load failure.
pub fn history_gate_rows(rows: HistoryRowsAnswer) -> (r: Result<(), HistoryPageError>)
    ensures
        r is Ok <==> rows == HistoryRowsAnswer::Loaded,
        rows == HistoryRowsAnswer::AccessDenied ==> (r matches Err(e) && refusal_view(e) == HistoryRefusal::AccessDenied),
        rows == HistoryRowsAnswer::Failed ==> (r matches Err(e) && refusal_view(e) == HistoryRefusal::LoadFailed),
{
    match rows {
        HistoryRowsAnswer::Loaded => Ok(()),
        HistoryRowsAnswer::AccessDenied => Err(HistoryPageError::AccessDenied),
        HistoryRowsAnswer::Failed => Err(HistoryPageError::LoadFailed),
    }
}

/// The whole Show History gate over every stage's outcome.
pub fn history_page_access(
    has_session: bool,
    valence_error: Option<&str>,
    table: &str,
    can_view: CanViewAnswer,
    rows: HistoryRowsAnswer,
    views_mapped: bool,
) -> (r: Result<(), HistoryPageError>)
    ensures
        match history_page_access_spec(
            has_session,
            match valence_error { Some(v) => Some(v@), None => None },
            table@,
            can_view,
            rows,
            views_mapped,
        ) {
            None => r is Ok,
            Some(f) => r matches Err(e) && refusal_view(e) == f,
        },
{
    history_gate_source(has_session, valence_error, table)?;
    history_gate_can_view(can_view)?;
    history_gate_rows(rows)?;
    if !views_mapped {
        return Err(HistoryPageError::LoadFailed);
    }
    Ok(())
}

/// The message a refused history page shows; `access_denied` is record history's
/// access-denied message.
pub fn history_error_message(e: &HistoryPageError, access_denied: &str) -> (r: String)
    ensures
        r@ == match refusal_view(*e) {
            HistoryRefusal::AuthenticationRequired => "Authentication required"@,
            HistoryRefusal::ServiceFailed(m) => m,
            HistoryRefusal::AccessDenied => access_denied@,
            HistoryRefusal::LoadFailed => "Failed to load record history"@,
        },
{
    match e {
        HistoryPageError::AuthenticationRequired => String::from_str("Authentication required"),
        HistoryPageError::ServiceFailed(m) => m.clone(),
        HistoryPageError::AccessDenied => String::from_str(access_denied),
        HistoryPageError::LoadFailed => String::from_str("Failed to load record history"),
    }
}

/// No history page is served unless there is a session, the source is a permission or a
/// permission group, the actor can edit it, and its rows load and map; without a session
/// the refusal is always `Authentication required`, and a denied can-edit answer is always
/// access denied.
pub proof fn lemma_history_served_only_when_allowed(
    has_session: bool,
    valence_error: Option<Seq<char>>,
    table: Seq<char>,
    can_view: CanViewAnswer,
    rows: HistoryRowsAnswer,
    views_mapped: bool,
)
    ensures
        history_page_access_spec(has_session, valence_error, table, can_view, rows, views_mapped) is None
            <==> (has_session && valence_error is None && is_history_source_table_spec(table)
            && can_view == CanViewAnswer::Allowed && rows == HistoryRowsAnswer::Loaded && views_mapped),
        !has_session ==> history_page_access_spec(has_session, valence_error, table, can_view, rows, views_mapped)
            == Some(HistoryRefusal::AuthenticationRequired),
        (has_session && valence_error is None && is_history_source_table_spec(table) && can_view
            == CanViewAnswer::Denied) ==> history_page_access_spec(has_session, valence_error, table, can_view, rows, views_mapped)
            == Some(HistoryRefusal::AccessDenied),
{
}

} // verus!
