//! Permission manifest of the Permission (gauge) admin app.
use vstd::prelude::*;

verus! {

/// Permissions declared by the Permission admin app.
#[derive(Clone, Copy, Debug, PartialEq, Eq, Structural)]
pub enum GaugePermission {
    /// Administer permissions, groups, domains, and principal search.
    GaugeAdmin,
}

/// The manifest name of a permission.
pub open spec fn permission_name_spec(p: GaugePermission) -> Seq<char> {
    match p {
        GaugePermission::GaugeAdmin => "GaugeAdmin"@,
    }
}

impl GaugePermission {
    /// The name under which the permission is synced into the `gauge` domain.
    pub fn name(&self) -> (r: &'static str)
        ensures
            r@ == permission_name_spec(*self),
    {
        match self {
            GaugePermission::GaugeAdmin => "GaugeAdmin",
        }
    }
}

/// One permission of a manifest.
pub struct PermissionManifestEntry {
    pub name: String,
    pub description: String,
}

/// One domain of a manifest, with its permissions.
pub struct PermissionDomainManifest {
    pub key: String,
    pub name: String,
    pub description: String,
    pub permissions: Vec<PermissionManifestEntry>,
}

/// The permissions an app declares, synced into `gauge` at host start.
pub struct PermissionManifest {
    pub app_id: String,
    pub domains: Vec<PermissionDomainManifest>,
}

/// The Permission app's manifest: app `permission`, domain `gauge` ("Gauge", "Permission
/// administration") holding `GaugeAdmin` ("Administer permissions, groups, and domains").
pub open spec fn is_gauge_admin_manifest(m: PermissionManifest) -> bool {
    &&& m.app_id@ == "permission"@
    &&& m.domains@.len() == 1
    &&& m.domains@[0].key@ == "gauge"@
    &&& m.domains@[0].name@ == "Gauge"@
    &&& m.domains@[0].description@ == "Permission administration"@
    &&& m.domains@[0].permissions@.len() == 1
    &&& m.domains@[0].permissions@[0].name@ == permission_name_spec(GaugePermission::GaugeAdmin)
    &&& m.domains@[0].permissions@[0].description@ == "Administer permissions, groups, and domains"@
}

/// The manifest that declares `GaugeAdmin` in the `gauge` domain.
pub fn gauge_admin_manifest() -> (r: PermissionManifest)
    ensures
        is_gauge_admin_manifest(r),
{
    let mut permissions: Vec<PermissionManifestEntry> = Vec::new();
    permissions.push(PermissionManifestEntry {
        name: String::from_str(GaugePermission::GaugeAdmin.name()),
        description: String::from_str("Administer permissions, groups, and domains"),
    });
    let mut domains: Vec<PermissionDomainManifest> = Vec::new();
    domains.push(PermissionDomainManifest {
        key: String::from_str("gauge"),
        name: String::from_str("Gauge"),
        description: String::from_str("Permission administration"),
        permissions,
    });
    PermissionManifest { app_id: String::from_str("permission"), domains }
}

} // verus!
