//! What the operator asks of a service and of a repository.
use crate::entities::{RealmImportSpec, RealmImportStatus};
use crate::error::OperatorError;
use vstd::prelude::*;

verus! {

/// Service interface for realm import operations.
pub trait RealmImportService: Send + Sync {
    /// Import/reconcile a realm with all its clients and roles.
    fn import_realm(&self, spec: &RealmImportSpec, namespace: &str) -> Result<
        RealmImportStatus,
        OperatorError,
    >;

    /// Clean up (delete) an imported realm and all associated resources.
    fn cleanup_realm(&self, spec: &RealmImportSpec, namespace: &str) -> Result<(), OperatorError>;
}

/// Repository (adapter) interface for realm import operations.
/// This is the port that infrastructure implementations must satisfy.
pub trait RealmImportRepository: Send + Sync {
    /// Import or update a realm configuration via the FerrisKey API. That the realm is there
    /// already is no error.
    fn apply(&self, spec: &RealmImportSpec, namespace: &str) -> Result<
        RealmImportStatus,
        OperatorError,
    >;

    /// Delete a realm and all associated resources via the FerrisKey API.
    fn delete(&self, spec: &RealmImportSpec, namespace: &str) -> Result<(), OperatorError>;
}

} // verus!
