use ferriskey_operator::entities::{
    ClientImport, ClusterRef, RealmImport, RealmImportSpec, RealmImportStatus, RoleImport,
};
use ferriskey_operator::error::OperatorError;
use ferriskey_operator::ports::{RealmImportRepository, RealmImportService};
use ferriskey_operator::services::RealmImportServiceWrapper;
use std::sync::atomic::{AtomicUsize, Ordering};
use std::sync::Arc;

/// A repository that expects one specification and answers what it is told to.
struct FixedRepository {
    spec: RealmImportSpec,
    namespace: String,
    applied: Option<Result<RealmImportStatus, OperatorError>>,
    deleted: Option<Result<(), OperatorError>>,
    calls: Arc<AtomicUsize>,
}

impl RealmImportRepository for FixedRepository {
    fn apply(
        &self,
        spec: &RealmImportSpec,
        namespace: &str,
    ) -> Result<RealmImportStatus, OperatorError> {
        assert_eq!(spec, &self.spec);
        assert_eq!(namespace, self.namespace);
        self.calls.fetch_add(1, Ordering::SeqCst);
        self.applied.clone().unwrap()
    }

    fn delete(&self, spec: &RealmImportSpec, namespace: &str) -> Result<(), OperatorError> {
        assert_eq!(spec, &self.spec);
        assert_eq!(namespace, self.namespace);
        self.calls.fetch_add(1, Ordering::SeqCst);
        self.deleted.clone().unwrap()
    }
}

fn default_spec() -> RealmImportSpec {
    RealmImportSpec {
        cluster_ref: ClusterRef {
            name: "my-cluster".to_string(),
        },
        realm: RealmImport {
            name: "myrealm".to_string(),
            display_name: Some("My Realm".to_string()),
            enabled: true,
            realm_roles: vec![RoleImport {
                name: "admin".to_string(),
                description: Some("Administrator".to_string()),
                permissions: vec!["read".to_string(), "write".to_string()],
            }],
            clients: vec![ClientImport {
                client_id: "my-app".to_string(),
                name: Some("My App".to_string()),
                enabled: true,
                public_client: false,
                secret: Some("super-secret".to_string()),
                protocol: Some("openid-connect".to_string()),
                redirect_uris: vec!["https://app.example.com/*".to_string()],
                client_type: Some("confidential".to_string()),
                direct_access_grants_enabled: false,
                service_accounts_enabled: false,
                roles: vec![RoleImport {
                    name: "app-admin".to_string(),
                    description: Some("App Admin".to_string()),
                    permissions: vec!["read".to_string(), "write".to_string()],
                }],
            }],
        },
    }
}

fn make_service(
    spec: &RealmImportSpec,
    applied: Option<Result<RealmImportStatus, OperatorError>>,
    deleted: Option<Result<(), OperatorError>>,
) -> (RealmImportServiceWrapper<FixedRepository>, Arc<AtomicUsize>) {
    let calls = Arc::new(AtomicUsize::new(0));
    let repository = FixedRepository {
        spec: spec.clone(),
        namespace: "default".to_string(),
        applied,
        deleted,
        calls: calls.clone(),
    };
    (RealmImportServiceWrapper::new(repository), calls)
}

#[test]
fn test_import_realm_success() {
    let spec = default_spec();
    let status = RealmImportStatus {
        ready: true,
        message: Some("Realm imported successfully".to_string()),
        phase: Some("Ready".to_string()),
    };
    let (service, calls) = make_service(&spec, Some(Ok(status)), None);
    let result = service.import_realm(&spec, "default");

    assert!(result.is_ok());
    let status = result.unwrap();
    assert!(status.ready);
    assert_eq!(status.phase.unwrap(), "Ready");
    assert_eq!(calls.load(Ordering::SeqCst), 1);
}

#[test]
fn test_import_realm_empty_name_fails() {
    let mut spec = default_spec();
    spec.realm.name = "".to_string();
    let (service, calls) = make_service(&spec, None, None);
    let result = service.import_realm(&spec, "default");

    assert!(result.is_err());
    match result.unwrap_err() {
        OperatorError::InvalidSpec { message } => {
            assert_eq!(message, "Realm name cannot be empty");
        }
        _ => panic!("Expected InvalidSpec error"),
    }
    assert_eq!(calls.load(Ordering::SeqCst), 0);
}

#[test]
fn test_import_realm_empty_cluster_ref_fails() {
    let mut spec = default_spec();
    spec.cluster_ref.name = "".to_string();
    let (service, calls) = make_service(&spec, None, None);
    let result = service.import_realm(&spec, "default");

    assert!(result.is_err());
    match result.unwrap_err() {
        OperatorError::InvalidSpec { message } => {
            assert_eq!(message, "Cluster reference name cannot be empty");
        }
        _ => panic!("Expected InvalidSpec error"),
    }
    assert_eq!(calls.load(Ordering::SeqCst), 0);
}

#[test]
fn test_cleanup_realm_success() {
    let spec = default_spec();
    let (service, calls) = make_service(&spec, None, Some(Ok(())));
    let result = service.cleanup_realm(&spec, "default");

    assert!(result.is_ok());
    assert_eq!(calls.load(Ordering::SeqCst), 1);
}

#[test]
fn test_cleanup_realm_empty_name_fails() {
    let mut spec = default_spec();
    spec.realm.name = "".to_string();
    let (service, calls) = make_service(&spec, None, None);
    let result = service.cleanup_realm(&spec, "default");

    assert!(result.is_err());
    assert_eq!(
        result.unwrap_err(),
        OperatorError::InvalidSpec {
            message: "Realm name cannot be empty".to_string(),
        }
    );
    assert_eq!(calls.load(Ordering::SeqCst), 0);
}

#[test]
fn test_import_realm_repository_error() {
    let spec = default_spec();
    let error = OperatorError::ApplyApiError {
        message: "API error".to_string(),
    };
    let (service, _) = make_service(&spec, Some(Err(error.clone())), None);
    let result = service.import_realm(&spec, "default");

    assert!(result.is_err());
    assert_eq!(result.unwrap_err(), error);
}

#[test]
fn empty_realm_name_is_refused_before_an_empty_cluster() {
    let mut spec = default_spec();
    spec.realm.name = "".to_string();
    spec.cluster_ref.name = "".to_string();
    let (service, _) = make_service(&spec, None, None);
    assert_eq!(
        service.import_realm(&spec, "default"),
        Err(OperatorError::InvalidSpec {
            message: "Realm name cannot be empty".to_string(),
        })
    );
}

#[test]
fn cleanup_does_not_ask_for_a_cluster() {
    let mut spec = default_spec();
    spec.cluster_ref.name = "".to_string();
    let (service, calls) = make_service(&spec, None, Some(Ok(())));
    assert_eq!(service.cleanup_realm(&spec, "default"), Ok(()));
    assert_eq!(calls.load(Ordering::SeqCst), 1);
}

#[test]
fn cleanup_hands_on_the_error_of_the_repository() {
    let spec = default_spec();
    let error = OperatorError::RealmImportError {
        message: "down".to_string(),
    };
    let (service, _) = make_service(&spec, None, Some(Err(error.clone())));
    assert_eq!(service.cleanup_realm(&spec, "default"), Err(error));
}

#[test]
fn status_starts_as_pending() {
    assert_eq!(
        RealmImportStatus::default(),
        RealmImportStatus {
            ready: false,
            message: Some("Pending import".to_string()),
            phase: Some("Pending".to_string()),
        }
    );
}
