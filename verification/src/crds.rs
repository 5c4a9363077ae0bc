//! The custom resources that the operator watches, as plain values.
use crate::entities::{ClientView, ImportView, RealmView, RoleView};
use vstd::prelude::*;

verus! {

/// What a user asks of a FerrisKey cluster.
#[derive(Debug, Clone)]
pub struct FerrisKeyClusterSpec {
    pub name: String,
    pub version: String,
    pub replicas: u32,
    pub database: DatabaseSpec,
    pub api: ApiSpec,
}

#[derive(Debug, Clone)]
pub struct ApiSpec {
    /// URL for the web application
    pub webapp_url: String,
    /// URL for the API service
    pub api_url: String,
    /// Allowed origins for CORS
    pub allowed_origins: Vec<String>,
}

#[derive(Debug, Clone)]
pub struct DatabaseSpec {
    /// Reference to a secret containing database credentials
    pub secret_ref: SecretReference,
    /// Optional: Database name override (if not specified in secret)
    pub database_name: Option<String>,
    /// Optional: SSL mode for database connection, e.g. "require", "disable", "prefer"
    pub ssl_mode: Option<String>,
}

#[derive(Debug, Clone)]
pub struct SecretReference {
    /// Name of the secret containing database credentials
    pub name: String,
    /// Optional: Namespace of the secret (defaults to same namespace as cluster)
    pub namespace: Option<String>,
}

#[derive(Debug, Clone)]
pub struct FerrisKeyClusterStatus {
    pub ready: bool,
    pub message: Option<String>,
    /// e.g. "Pending", "Running", "Failed", "Terminating"
    pub phase: Option<String>,
    pub conditions: Option<Vec<ClusterCondition>>,
    pub database_status: Option<DatabaseStatus>,
}

#[derive(Debug, Clone)]
pub struct ClusterCondition {
    /// e.g. "Ready", "Progressing", "Degraded"
    pub condition_type: String,
    /// "True", "False", "Unknown"
    pub status: String,
    /// ISO 8601 timestamp
    pub last_transition_time: String,
    pub reason: Option<String>,
    pub message: Option<String>,
}

#[derive(Debug, Clone)]
pub struct DatabaseStatus {
    pub connected: bool,
    pub host: Option<String>,
    pub database: Option<String>,
    pub last_check: Option<String>,
}

/// The metadata of a resource, as far as the operator reads it.
#[derive(Debug, Clone)]
pub struct ObjectMeta {
    pub name: Option<String>,
    /// The prefix that the API server makes a name from where there is none
    pub generate_name: Option<String>,
    pub namespace: Option<String>,
}

/// A resource that asks for a realm (with clients, roles, etc.) in a FerrisKey cluster.
#[derive(Debug, Clone)]
pub struct FerrisKeyRealmImport {
    pub metadata: ObjectMeta,
    pub spec: FerrisKeyRealmImportSpec,
    pub status: Option<FerrisKeyRealmImportStatus>,
}

#[derive(Debug, Clone)]
pub struct FerrisKeyRealmImportSpec {
    /// Reference to the FerrisKeyCluster to import into
    pub cluster_ref: ClusterRefSpec,
    /// Realm configuration to import
    pub realm: RealmImportSpec,
}

#[derive(Debug, Clone)]
pub struct ClusterRefSpec {
    /// Name of the FerrisKeyCluster
    pub name: String,
}

#[derive(Debug, Clone)]
pub struct RealmImportSpec {
    /// Name/slug of the realm
    pub name: String,
    /// Human-readable display name for the realm
    pub display_name: Option<String>,
    /// Whether the realm is enabled
    pub enabled: bool,
    /// Realm-level roles to create
    pub realm_roles: Vec<RoleImportSpec>,
    /// Client applications to create
    pub clients: Vec<ClientImportSpec>,
}

#[derive(Debug, Clone)]
pub struct ClientImportSpec {
    /// OAuth2 client ID
    pub client_id: String,
    /// Human-readable name for the client (defaults to client_id)
    pub name: Option<String>,
    /// Whether the client is enabled
    pub enabled: bool,
    /// Whether this is a public client (no secret required)
    pub public_client: bool,
    /// Client secret (for confidential clients)
    pub secret: Option<String>,
    /// Protocol (defaults to "openid-connect")
    pub protocol: Option<String>,
    /// Allowed redirect URIs
    pub redirect_uris: Vec<String>,
    /// Client type: "confidential", "public", or "system"
    pub client_type: Option<String>,
    /// Whether direct access grants are enabled
    pub direct_access_grants_enabled: bool,
    /// Whether service accounts are enabled
    pub service_accounts_enabled: bool,
    /// Client-level roles
    pub roles: Vec<RoleImportSpec>,
}

#[derive(Debug, Clone)]
pub struct RoleImportSpec {
    /// Role name
    pub name: String,
    /// Optional description
    pub description: Option<String>,
    /// Permission strings
    pub permissions: Vec<String>,
}

#[derive(Debug, Clone)]
pub struct FerrisKeyRealmImportStatus {
    pub ready: bool,
    pub message: Option<String>,
    pub phase: Option<String>,
    pub conditions: Option<Vec<ClusterCondition>>,
}

/// What the operator reads of a cluster: its name and the URL of its API.
pub struct ClusterView {
    pub name: Seq<char>,
    pub api_url: Seq<char>,
}

/// What a [`ClusterCondition`] says.
pub struct ConditionView {
    pub condition_type: Seq<char>,
    pub status: Seq<char>,
    pub last_transition_time: Seq<char>,
    pub reason: Option<Seq<char>>,
    pub message: Option<Seq<char>>,
}

/// What a [`FerrisKeyRealmImportStatus`] says.
pub struct ImportStatusView {
    pub ready: bool,
    pub message: Option<Seq<char>>,
    pub phase: Option<Seq<char>>,
    pub conditions: Option<Seq<ConditionView>>,
}

impl View for FerrisKeyClusterSpec {
    type V = ClusterView;

    open spec fn view(&self) -> ClusterView {
        ClusterView { name: self.name@, api_url: self.api.api_url@ }
    }
}

impl View for ClusterCondition {
    type V = ConditionView;

    open spec fn view(&self) -> ConditionView {
        ConditionView {
            condition_type: self.condition_type@,
            status: self.status@,
            last_transition_time: self.last_transition_time@,
            reason: self.reason.deep_view(),
            message: self.message.deep_view(),
        }
    }
}

impl DeepView for ClusterCondition {
    type V = ConditionView;

    open spec fn deep_view(&self) -> ConditionView {
        self@
    }
}

impl View for FerrisKeyRealmImportStatus {
    type V = ImportStatusView;

    open spec fn view(&self) -> ImportStatusView {
        ImportStatusView {
            ready: self.ready,
            message: self.message.deep_view(),
            phase: self.phase.deep_view(),
            conditions: self.conditions.deep_view(),
        }
    }
}

impl View for RoleImportSpec {
    type V = RoleView;

    open spec fn view(&self) -> RoleView {
        RoleView {
            name: self.name@,
            description: self.description.deep_view(),
            permissions: self.permissions.deep_view(),
        }
    }
}

impl DeepView for RoleImportSpec {
    type V = RoleView;

    open spec fn deep_view(&self) -> RoleView {
        self@
    }
}

impl View for ClientImportSpec {
    type V = ClientView;

    open spec fn view(&self) -> ClientView {
        ClientView {
            client_id: self.client_id@,
            name: self.name.deep_view(),
            enabled: self.enabled,
            public_client: self.public_client,
            secret: self.secret.deep_view(),
            protocol: self.protocol.deep_view(),
            redirect_uris: self.redirect_uris.deep_view(),
            client_type: self.client_type.deep_view(),
            direct_access_grants_enabled: self.direct_access_grants_enabled,
            service_accounts_enabled: self.service_accounts_enabled,
            roles: self.roles.deep_view(),
        }
    }
}

impl DeepView for ClientImportSpec {
    type V = ClientView;

    open spec fn deep_view(&self) -> ClientView {
        self@
    }
}

impl View for RealmImportSpec {
    type V = RealmView;

    open spec fn view(&self) -> RealmView {
        RealmView {
            name: self.name@,
            display_name: self.display_name.deep_view(),
            enabled: self.enabled,
            realm_roles: self.realm_roles.deep_view(),
            clients: self.clients.deep_view(),
        }
    }
}

impl View for FerrisKeyRealmImportSpec {
    type V = ImportView;

    open spec fn view(&self) -> ImportView {
        ImportView { cluster: self.cluster_ref.name@, realm: self.realm@ }
    }
}

impl Default for ObjectMeta {
    fn default() -> (metadata: Self)
        ensures
            metadata.name is None,
            metadata.generate_name is None,
            metadata.namespace is None,
    {
        ObjectMeta { name: None, generate_name: None, namespace: None }
    }
}

impl Default for FerrisKeyClusterStatus {
    fn default() -> (status: Self)
        ensures
            !status.ready,
            status.message is None,
            status.phase is None,
            status.conditions is None,
            status.database_status is None,
    {
        FerrisKeyClusterStatus {
            ready: false,
            message: None,
            phase: None,
            conditions: None,
            database_status: None,
        }
    }
}

impl Default for FerrisKeyRealmImportStatus {
    fn default() -> (status: Self)
        ensures
            !status.ready,
            status.message is None,
            status.phase is None,
            status.conditions is None,
    {
        FerrisKeyRealmImportStatus { ready: false, message: None, phase: None, conditions: None }
    }
}

} // verus!
