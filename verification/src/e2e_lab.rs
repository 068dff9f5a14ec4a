//! Process-local override of `list_domains` for the Playwright lab host.
//!
//! The lab host keeps one [`ListDomainsOverrideStore`] for the process; production hosts
//! never set it, so `list_domains` keeps its normal service behavior.
use vstd::prelude::*;
use crate::text::str_eq;

verus! {

/// How `list_domains` should behave under an e2e seed override.
#[derive(Debug, Clone, Copy, PartialEq, Eq, Structural)]
pub enum ListDomainsOverride {
    /// Call the real gauge service.
    Normal,
    /// Return an empty domain list (Select disabled + empty copy).
    Empty,
    /// Return a server error (Select disabled + error MessageBar).
    Error,
}

/// The code stored for a seed mode: `empty` is 1, `error` is 2, anything else (or none) is 0.
pub open spec fn override_code_spec(mode: Option<Seq<char>>) -> u8 {
    match mode {
        Some(m) => if m == "empty"@ {
            1
        } else if m == "error"@ {
            2
        } else {
            0
        },
        None => 0,
    }
}

/// The override a stored code stands for; unknown codes mean no override.
pub open spec fn decode_override_spec(code: u8) -> ListDomainsOverride {
    if code == 1 {
        ListDomainsOverride::Empty
    } else if code == 2 {
        ListDomainsOverride::Error
    } else {
        ListDomainsOverride::Normal
    }
}

/// The override that a seed mode selects.
pub open spec fn override_for_mode(mode: Option<Seq<char>>) -> ListDomainsOverride {
    decode_override_spec(override_code_spec(mode))
}

/// The process-wide slot that holds the current `list_domains` override code.
pub struct ListDomainsOverrideStore {
    code: u8,
}

impl ListDomainsOverrideStore {
    /// The code currently stored.
    pub closed spec fn code(self) -> u8 {
        self.code
    }

    /// A slot with no override (normal service behavior).
    pub fn new() -> (r: Self)
        ensures
            r.code() == 0,
            decode_override_spec(r.code()) == ListDomainsOverride::Normal,
    {
        ListDomainsOverrideStore { code: 0 }
    }
}

/// Option view of an optional string slice.
pub open spec fn opt_view(mode: Option<&str>) -> Option<Seq<char>> {
    match mode {
        Some(m) => Some(m@),
        None => None,
    }
}

/// Set by `POST /api/test/seed-data` in the lab host: `empty` and `error` select those
/// overrides, anything else clears the override.
pub fn set_list_domains_override(store: &mut ListDomainsOverrideStore, mode: Option<&str>)
    ensures
        final(store).code() == override_code_spec(opt_view(mode)),
{
    let v: u8 = match mode {
        Some(m) => if str_eq(m, "empty") {
            1
        } else if str_eq(m, "error") {
            2
        } else {
            0
        },
        None => 0,
    };
    store.code = v;
}

/// The override currently in force.
pub fn list_domains_override(store: &ListDomainsOverrideStore) -> (r: ListDomainsOverride)
    ensures
        r == decode_override_spec(store.code()),
{
    if store.code == 1 {
        ListDomainsOverride::Empty
    } else if store.code == 2 {
        ListDomainsOverride::Error
    } else {
        ListDomainsOverride::Normal
    }
}

/// Reading the override after setting it gives the override that the mode selects:
/// `empty` gives `Empty`, `error` gives `Error`, any other mode or none gives `Normal`.
pub proof fn lemma_override_read_after_write(mode: Option<Seq<char>>, code: u8)
    requires
        code == override_code_spec(mode),
    ensures
        decode_override_spec(code) == override_for_mode(mode),
        mode == Some("empty"@) ==> decode_override_spec(code) == ListDomainsOverride::Empty,
        mode == Some("error"@) ==> decode_override_spec(code) == ListDomainsOverride::Error,
        mode is None ==> decode_override_spec(code) == ListDomainsOverride::Normal,
        (mode matches Some(m) && m != "empty"@ && m != "error"@) ==> decode_override_spec(code)
            == ListDomainsOverride::Normal,
{
    reveal_strlit("empty");
    reveal_strlit("error");
    assert("error"@[1] != "empty"@[1]);
}

} // verus!
