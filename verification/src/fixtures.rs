//! Stable fixture ids of the Playwright lab host and the process-wide store that holds them.
use vstd::prelude::*;

verus! {

/// Stable fixture ids exposed to seed JSON / Playwright.
#[derive(Clone, Debug, Default)]
pub struct FixtureIds {
    pub domain_a_id: String,
    pub domain_b_id: String,
    pub permission_id: String,
    pub permission_name: String,
    pub group_id: String,
    pub group_name: String,
    pub pending_perm_request_id: String,
    pub pending_group_request_id: String,
    pub child_group_id: String,
}

/// The ids of a [`FixtureIds`] as character sequences.
pub ghost struct FixtureIdsView {
    pub domain_a_id: Seq<char>,
    pub domain_b_id: Seq<char>,
    pub permission_id: Seq<char>,
    pub permission_name: Seq<char>,
    pub group_id: Seq<char>,
    pub group_name: Seq<char>,
    pub pending_perm_request_id: Seq<char>,
    pub pending_group_request_id: Seq<char>,
    pub child_group_id: Seq<char>,
}

impl View for FixtureIds {
    type V = FixtureIdsView;

    open spec fn view(&self) -> FixtureIdsView {
        FixtureIdsView {
            domain_a_id: self.domain_a_id@,
            domain_b_id: self.domain_b_id@,
            permission_id: self.permission_id@,
            permission_name: self.permission_name@,
            group_id: self.group_id@,
            group_name: self.group_name@,
            pending_perm_request_id: self.pending_perm_request_id@,
            pending_group_request_id: self.pending_group_request_id@,
            child_group_id: self.child_group_id@,
        }
    }
}

/// A field-by-field copy.
fn copy_fixtures(f: &FixtureIds) -> (r: FixtureIds)
    ensures
        r@ == f@,
{
    FixtureIds {
        domain_a_id: f.domain_a_id.clone(),
        domain_b_id: f.domain_b_id.clone(),
        permission_id: f.permission_id.clone(),
        permission_name: f.permission_name.clone(),
        group_id: f.group_id.clone(),
        group_name: f.group_name.clone(),
        pending_perm_request_id: f.pending_perm_request_id.clone(),
        pending_group_request_id: f.pending_group_request_id.clone(),
        child_group_id: f.child_group_id.clone(),
    }
}

impl FixtureIds {
    /// The same fixtures with freshly minted pending request ids (the seed endpoint's
    /// `refresh_requests`); every other id stays.
    pub fn with_pending_requests(self, perm_request_id: String, group_request_id: String) -> (r: FixtureIds)
        ensures
            r@ == (FixtureIdsView {
                pending_perm_request_id: perm_request_id@,
                pending_group_request_id: group_request_id@,
                ..self@
            }),
    {
        FixtureIds {
            pending_perm_request_id: perm_request_id,
            pending_group_request_id: group_request_id,
            ..self
        }
    }
}

/// The fixture ids bootstrapped at host start: the created records' ids, with the fixture
/// permission named `CanDeploy` and the fixture group `Deployers`.
pub fn bootstrap_fixture_ids(
    domain_a_id: String,
    domain_b_id: String,
    permission_id: String,
    group_id: String,
    child_group_id: String,
    pending_perm_request_id: String,
    pending_group_request_id: String,
) -> (r: FixtureIds)
    ensures
        r@ == (FixtureIdsView {
            domain_a_id: domain_a_id@,
            domain_b_id: domain_b_id@,
            permission_id: permission_id@,
            permission_name: "CanDeploy"@,
            group_id: group_id@,
            group_name: "Deployers"@,
            pending_perm_request_id: pending_perm_request_id@,
            pending_group_request_id: pending_group_request_id@,
            child_group_id: child_group_id@,
        }),
{
    FixtureIds {
        domain_a_id,
        domain_b_id,
        permission_id,
        permission_name: String::from_str("CanDeploy"),
        group_id,
        group_name: String::from_str("Deployers"),
        pending_perm_request_id,
        pending_group_request_id,
        child_group_id,
    }
}

/// Holds the lab host's current fixture ids.
pub struct FixtureStore {
    fixtures: FixtureIds,
}

impl FixtureStore {
    /// The fixtures currently held.
    pub closed spec fn held(self) -> FixtureIdsView {
        self.fixtures@
    }

    /// A store holding the bootstrap fixtures.
    pub fn new(fixtures: FixtureIds) -> (r: Self)
        ensures
            r.held() == fixtures@,
    {
        FixtureStore { fixtures }
    }
}

/// A copy of the fixtures currently held.
pub fn e2e_fixtures(store: &FixtureStore) -> (r: FixtureIds)
    ensures
        r@ == store.held(),
{
    copy_fixtures(&store.fixtures)
}

/// Replaces the fixtures held.
pub fn store_fixtures(store: &mut FixtureStore, fixtures: FixtureIds)
    ensures
        final(store).held() == fixtures@,
{
    store.fixtures = fixtures;
}

/// Reading the fixtures gives back exactly what was last stored.
pub proof fn lemma_fixtures_read_after_write(store: FixtureStore, stored: FixtureIds, read: FixtureIds)
    requires
        store.held() == stored@,
        read@ == store.held(),
    ensures
        read@ == stored@,
        read.pending_perm_request_id@ == stored.pending_perm_request_id@,
        read.permission_id@ == stored.permission_id@,
{
}

} // verus!
