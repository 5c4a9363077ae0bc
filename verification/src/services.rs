//! The realm import service: it checks a specification and hands it to a repository.
use crate::entities::{ImportView, RealmImportSpec, RealmImportStatus};
use crate::error::{ErrorView, OperatorError};
use crate::ports::{RealmImportRepository, RealmImportService};
use vstd::prelude::*;

verus! {

/// Why a specification cannot be imported, where it cannot.
pub open spec fn import_refusal(import: ImportView) -> Option<ErrorView> {
    if import.realm.name.len() == 0 {
        Some(ErrorView::InvalidSpec("Realm name cannot be empty"@))
    } else if import.cluster.len() == 0 {
        Some(ErrorView::InvalidSpec("Cluster reference name cannot be empty"@))
    } else {
        None
    }
}

/// Why what a specification imports cannot be removed, where it cannot.
pub open spec fn cleanup_refusal(import: ImportView) -> Option<ErrorView> {
    if import.realm.name.len() == 0 {
        Some(ErrorView::InvalidSpec("Realm name cannot be empty"@))
    } else {
        None
    }
}

/// Wrapper struct that implements RealmImportService using a RealmImportRepository.
#[derive(Clone)]
pub struct RealmImportServiceWrapper<R> where R: RealmImportRepository {
    pub(crate) repository: R,
}

impl<R> RealmImportServiceWrapper<R> where R: RealmImportRepository {
    /// The repository that specifications are handed to.
    pub closed spec fn repository(&self) -> R {
        self.repository
    }

    pub fn new(repository: R) -> (service: Self)
        ensures
            service.repository() == repository,
    {
        RealmImportServiceWrapper { repository }
    }
}

impl<R> RealmImportService for RealmImportServiceWrapper<R> where R: RealmImportRepository {
    /// Refuses a specification without a realm name or without a cluster; the result for any
    /// other is what the repository makes of it.
    fn import_realm(&self, spec: &RealmImportSpec, namespace: &str) -> (result: Result<
        RealmImportStatus,
        OperatorError,
    >)
        ensures
            match import_refusal(spec@) {
                Some(refusal) => result is Err && result->Err_0@ == refusal,
                None => call_ensures(R::apply, (&self.repository(), spec, namespace), result),
            },
    {
        if spec.realm.name.as_str().is_empty() {
            return Err(
                OperatorError::InvalidSpec { message: "Realm name cannot be empty".to_string() },
            );
        }
        if spec.cluster_ref.name.as_str().is_empty() {
            return Err(
                OperatorError::InvalidSpec {
                    message: "Cluster reference name cannot be empty".to_string(),
                },
            );
        }
        self.repository.apply(spec, namespace)
    }

    /// Refuses a specification without a realm name; the result for any other is what the
    /// repository makes of it.
    fn cleanup_realm(&self, spec: &RealmImportSpec, namespace: &str) -> (result: Result<
        (),
        OperatorError,
    >)
        ensures
            match cleanup_refusal(spec@) {
                Some(refusal) => result is Err && result->Err_0@ == refusal,
                None => call_ensures(R::delete, (&self.repository(), spec, namespace), result),
            },
    {
        if spec.realm.name.as_str().is_empty() {
            return Err(
                OperatorError::InvalidSpec { message: "Realm name cannot be empty".to_string() },
            );
        }
        self.repository.delete(spec, namespace)
    }
}

} // verus!
