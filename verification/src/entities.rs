//! What a realm import consists of, and what becomes of it.
use vstd::prelude::*;

verus! {

/// Top-level specification for a realm import operation.
#[derive(Debug, Clone, PartialEq, Eq)]
pub struct RealmImportSpec {
    /// Reference to the FerrisKeyCluster to import into
    pub cluster_ref: ClusterRef,
    /// The realm configuration to import
    pub realm: RealmImport,
}

/// Reference to a FerrisKeyCluster resource.
#[derive(Debug, Clone, PartialEq, Eq)]
pub struct ClusterRef {
    /// Name of the FerrisKeyCluster
    pub name: String,
}

/// Realm configuration to be imported.
#[derive(Debug, Clone, PartialEq, Eq)]
pub struct RealmImport {
    /// Name/slug of the realm
    pub name: String,
    /// Human-readable display name for the realm
    pub display_name: Option<String>,
    /// Whether the realm is enabled
    pub enabled: bool,
    /// Realm-level roles to create
    pub realm_roles: Vec<RoleImport>,
    /// Client applications to create
    pub clients: Vec<ClientImport>,
}

/// Client application to be created during realm import.
#[derive(Debug, Clone, PartialEq, Eq)]
pub struct ClientImport {
    /// OAuth2 client ID
    pub client_id: String,
    /// Human-readable name for the client (defaults to client_id)
    pub name: Option<String>,
    /// Whether the client is enabled
    pub enabled: bool,
    /// Whether this is a public client (no secret required)
    pub public_client: bool,
    /// Client secret (for confidential clients)
    pub secret: Option<String>,
    /// Protocol (defaults to "openid-connect")
    pub protocol: Option<String>,
    /// Allowed redirect URIs
    pub redirect_uris: Vec<String>,
    /// Client type: "confidential", "public", or "system"
    pub client_type: Option<String>,
    /// Whether direct access grants are enabled
    pub direct_access_grants_enabled: bool,
    /// Whether service accounts are enabled
    pub service_accounts_enabled: bool,
    /// Client-level roles
    pub roles: Vec<RoleImport>,
}

/// Role to be created during realm import.
#[derive(Debug, Clone, PartialEq, Eq)]
pub struct RoleImport {
    /// Role name
    pub name: String,
    /// Optional description
    pub description: Option<String>,
    /// Permission strings (bitmask-compatible permission names)
    pub permissions: Vec<String>,
}

/// Status of a realm import operation.
#[derive(Debug, Clone, PartialEq, Eq)]
pub struct RealmImportStatus {
    /// Whether the import completed successfully
    pub ready: bool,
    /// Optional status message
    pub message: Option<String>,
    /// Current phase (e.g., "Pending", "Importing", "Ready", "Error")
    pub phase: Option<String>,
}

/// Action to take after reconciliation
#[derive(Debug)]
pub enum RealmImportAction {
    Create,
    Update,
    NoOp,
}

/// What a role says, whether it is asked for by a resource or about to be created.
pub struct RoleView {
    pub name: Seq<char>,
    pub description: Option<Seq<char>>,
    pub permissions: Seq<Seq<char>>,
}

/// What a client says, whether it is asked for by a resource or about to be created.
pub struct ClientView {
    pub client_id: Seq<char>,
    pub name: Option<Seq<char>>,
    pub enabled: bool,
    pub public_client: bool,
    pub secret: Option<Seq<char>>,
    pub protocol: Option<Seq<char>>,
    pub redirect_uris: Seq<Seq<char>>,
    pub client_type: Option<Seq<char>>,
    pub direct_access_grants_enabled: bool,
    pub service_accounts_enabled: bool,
    pub roles: Seq<RoleView>,
}

/// What a realm says, whether it is asked for by a resource or about to be created.
pub struct RealmView {
    pub name: Seq<char>,
    pub display_name: Option<Seq<char>>,
    pub enabled: bool,
    pub realm_roles: Seq<RoleView>,
    pub clients: Seq<ClientView>,
}

/// A realm, and the name of the cluster that it goes into.
pub struct ImportView {
    pub cluster: Seq<char>,
    pub realm: RealmView,
}

/// What a [`RealmImportStatus`] says.
pub struct StatusView {
    pub ready: bool,
    pub message: Option<Seq<char>>,
    pub phase: Option<Seq<char>>,
}

impl View for RoleImport {
    type V = RoleView;

    open spec fn view(&self) -> RoleView {
        RoleView {
            name: self.name@,
            description: self.description.deep_view(),
            permissions: self.permissions.deep_view(),
        }
    }
}

impl DeepView for RoleImport {
    type V = RoleView;

    open spec fn deep_view(&self) -> RoleView {
        self@
    }
}

impl View for ClientImport {
    type V = ClientView;

    open spec fn view(&self) -> ClientView {
        ClientView {
            client_id: self.client_id@,
            name: self.name.deep_view(),
            enabled: self.enabled,
            public_client: self.public_client,
            secret: self.secret.deep_view(),
            protocol: self.protocol.deep_view(),
            redirect_uris: self.redirect_uris.deep_view(),
            client_type: self.client_type.deep_view(),
            direct_access_grants_enabled: self.direct_access_grants_enabled,
            service_accounts_enabled: self.service_accounts_enabled,
            roles: self.roles.deep_view(),
        }
    }
}

impl DeepView for ClientImport {
    type V = ClientView;

    open spec fn deep_view(&self) -> ClientView {
        self@
    }
}

impl View for RealmImport {
    type V = RealmView;

    open spec fn view(&self) -> RealmView {
        RealmView {
            name: self.name@,
            display_name: self.display_name.deep_view(),
            enabled: self.enabled,
            realm_roles: self.realm_roles.deep_view(),
            clients: self.clients.deep_view(),
        }
    }
}

impl View for RealmImportSpec {
    type V = ImportView;

    open spec fn view(&self) -> ImportView {
        ImportView { cluster: self.cluster_ref.name@, realm: self.realm@ }
    }
}

impl View for RealmImportStatus {
    type V = StatusView;

    open spec fn view(&self) -> StatusView {
        StatusView {
            ready: self.ready,
            message: self.message.deep_view(),
            phase: self.phase.deep_view(),
        }
    }
}

impl Default for RealmImportStatus {
    fn default() -> (status: Self)
        ensures
            status@ == (StatusView {
                ready: false,
                message: Some("Pending import"@),
                phase: Some("Pending"@),
            }),
    {
        RealmImportStatus {
            ready: false,
            message: Some("Pending import".to_string()),
            phase: Some("Pending".to_string()),
        }
    }
}

} // verus!
