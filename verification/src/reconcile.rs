//! The reconciliation of a FerrisKeyRealmImport resource under its finalizer, step by step.
//!
//! A resource that is there is imported and the result is written to its status; the realm of a
//! resource that is being deleted is cleaned up.
use crate::controller::{
    action_result, any_name, convert_to_domain_spec, import_outcome, import_result,
    namespace_or_default, report_import, reported_status, settle_cleanup, status_patch,
    status_patch_json, Action, FailureView, ImportFailure, ImportReport,
};
use crate::crds::{FerrisKeyRealmImport, ImportStatusView};
use crate::entities::{ImportView, RealmImportSpec, RealmImportStatus, StatusView};
use crate::error::{unit_result, ErrorView, OperatorError};
use crate::json::{Json, JsonView};
use vstd::prelude::*;

verus! {

/// What the finalizer calls for.
#[derive(Debug, Clone, Copy, PartialEq, Eq, Structural)]
pub enum FinalizerEvent {
    Apply,
    Cleanup,
}

/// Something that is to be done outside.
#[derive(Debug, PartialEq, Eq)]
pub enum ReconcileCommand {
    /// Let the service import the realm.
    Import { spec: RealmImportSpec, namespace: String },
    /// Let the service clean up the realm.
    Cleanup { spec: RealmImportSpec, namespace: String },
    /// Apply a merge patch to the status subresource of the resource of this name.
    PatchStatus { name: String, namespace: String, patch: Json },
}

/// What came of a [`ReconcileCommand`], in the same order.
#[derive(Debug)]
pub enum ReconcileEvent {
    Imported(Result<RealmImportStatus, ImportFailure>),
    CleanedUp(Result<(), OperatorError>),
    Patched(Result<(), OperatorError>),
}

/// What a [`ReconcileCommand`] says.
pub enum ReconcileCommandView {
    Import(ImportView, Seq<char>),
    Cleanup(ImportView, Seq<char>),
    PatchStatus(Seq<char>, Seq<char>, JsonView),
}

/// What a [`ReconcileEvent`] says.
pub enum ReconcileEventView {
    Imported(Result<StatusView, FailureView>),
    CleanedUp(Result<(), ErrorView>),
    Patched(Result<(), ErrorView>),
}

impl View for ReconcileCommand {
    type V = ReconcileCommandView;

    open spec fn view(&self) -> ReconcileCommandView {
        match self {
            ReconcileCommand::Import { spec, namespace } => ReconcileCommandView::Import(
                spec@,
                namespace@,
            ),
            ReconcileCommand::Cleanup { spec, namespace } => ReconcileCommandView::Cleanup(
                spec@,
                namespace@,
            ),
            ReconcileCommand::PatchStatus { name, namespace, patch } => {
                ReconcileCommandView::PatchStatus(name@, namespace@, patch@)
            },
        }
    }
}

impl View for ReconcileEvent {
    type V = ReconcileEventView;

    open spec fn view(&self) -> ReconcileEventView {
        match self {
            ReconcileEvent::Imported(result) => ReconcileEventView::Imported(
                import_result(*result),
            ),
            ReconcileEvent::CleanedUp(result) => ReconcileEventView::CleanedUp(
                unit_result(*result),
            ),
            ReconcileEvent::Patched(result) => ReconcileEventView::Patched(unit_result(*result)),
        }
    }
}

/// What a reconciliation reads of a resource.
pub struct ResourceView {
    pub name: Seq<char>,
    pub namespace: Seq<char>,
    pub import: ImportView,
}

/// What a reconciliation reads of a resource.
pub open spec fn resource_view(import: FerrisKeyRealmImport) -> ResourceView {
    ResourceView {
        name: any_name(
            import.metadata.name.deep_view(),
            import.metadata.generate_name.deep_view(),
        ),
        namespace: namespace_or_default(import.metadata.namespace.deep_view()),
        import: import.spec@,
    }
}

/// Where a reconciliation stands: what is to be done next.
#[derive(Debug)]
enum ReconcileStage {
    Importing,
    CleaningUp,
    Reporting(ImportReport),
}

/// What the stage of a reconciliation says.
pub enum ReconcileStageView {
    Importing,
    CleaningUp,
    Reporting { status: ImportStatusView, outcome: Result<Action, ErrorView> },
}

/// Where an event leads in a reconciliation.
pub enum ReconcileTurnView {
    Waiting(ReconcileStageView),
    Done(Result<Action, ErrorView>),
}

impl View for ReconcileStage {
    type V = ReconcileStageView;

    closed spec fn view(&self) -> ReconcileStageView {
        match self {
            ReconcileStage::Importing => ReconcileStageView::Importing,
            ReconcileStage::CleaningUp => ReconcileStageView::CleaningUp,
            ReconcileStage::Reporting(report) => ReconcileStageView::Reporting {
                status: report.status@,
                outcome: action_result(report.outcome),
            },
        }
    }
}

/// The stage that a reconciliation starts at.
pub open spec fn reconcile_start(event: FinalizerEvent) -> ReconcileStageView {
    match event {
        FinalizerEvent::Apply => ReconcileStageView::Importing,
        FinalizerEvent::Cleanup => ReconcileStageView::CleaningUp,
    }
}

/// What is to be done at a stage.
pub open spec fn reconcile_command(
    resource: ResourceView,
    stage: ReconcileStageView,
) -> ReconcileCommandView {
    match stage {
        ReconcileStageView::Importing => ReconcileCommandView::Import(
            resource.import,
            resource.namespace,
        ),
        ReconcileStageView::CleaningUp => ReconcileCommandView::Cleanup(
            resource.import,
            resource.namespace,
        ),
        ReconcileStageView::Reporting { status, .. } => ReconcileCommandView::PatchStatus(
            resource.name,
            resource.namespace,
            status_patch_json(status),
        ),
    }
}

/// Where an event leads from a stage. An event that is no answer leads nowhere.
pub open spec fn reconcile_step(
    stage: ReconcileStageView,
    event: ReconcileEventView,
) -> ReconcileTurnView {
    match (stage, event) {
        (ReconcileStageView::Importing, ReconcileEventView::Imported(result)) => {
            ReconcileTurnView::Waiting(
                ReconcileStageView::Reporting {
                    status: reported_status(result),
                    outcome: import_outcome(result),
                },
            )
        },
        (ReconcileStageView::CleaningUp, ReconcileEventView::CleanedUp(_)) => {
            ReconcileTurnView::Done(Ok(Action::AwaitChange))
        },
        (ReconcileStageView::Reporting { outcome, .. }, ReconcileEventView::Patched(_)) => {
            ReconcileTurnView::Done(outcome)
        },
        _ => ReconcileTurnView::Waiting(stage),
    }
}

/// A reconciliation under way.
#[derive(Debug)]
pub struct Reconciliation<'a> {
    import: &'a FerrisKeyRealmImport,
    stage: ReconcileStage,
}

/// Where an event leads: a reconciliation that goes on, or what it comes to.
#[derive(Debug)]
pub enum ReconcileTurn<'a> {
    Waiting(Reconciliation<'a>),
    Done(Result<Action, OperatorError>),
}

impl<'a> ReconcileTurn<'a> {
    /// What this turn says.
    pub open spec fn view(&self) -> ReconcileTurnView {
        match self {
            ReconcileTurn::Waiting(flow) => ReconcileTurnView::Waiting(flow.stage()),
            ReconcileTurn::Done(result) => ReconcileTurnView::Done(action_result(*result)),
        }
    }

    /// Whether a reconciliation that goes on is still that of the same resource.
    pub open spec fn is_of(&self, resource: ResourceView) -> bool {
        match self {
            ReconcileTurn::Waiting(flow) => flow.resource() == resource,
            ReconcileTurn::Done(_) => true,
        }
    }
}

impl<'a> Reconciliation<'a> {
    #[verifier::type_invariant]
    spec fn reports_on_its_resource(&self) -> bool {
        match self.stage {
            ReconcileStage::Reporting(report) => report.name@ == self.resource().name,
            _ => true,
        }
    }

    /// What is being reconciled.
    pub closed spec fn resource(&self) -> ResourceView {
        resource_view(*self.import)
    }

    /// Where the reconciliation stands.
    pub closed spec fn stage(&self) -> ReconcileStageView {
        self.stage@
    }

    /// Starts the reconciliation that the finalizer calls for.
    pub fn start(import: &'a FerrisKeyRealmImport, event: FinalizerEvent) -> (flow: Reconciliation<
        'a,
    >)
        ensures
            flow.resource() == resource_view(*import),
            flow.stage() == reconcile_start(event),
    {
        match event {
            FinalizerEvent::Apply => Reconciliation { import, stage: ReconcileStage::Importing },
            FinalizerEvent::Cleanup => Reconciliation { import, stage: ReconcileStage::CleaningUp },
        }
    }

    /// What is to be done next.
    pub fn command(&self) -> (command: ReconcileCommand)
        ensures
            command@ == reconcile_command(self.resource(), self.stage()),
    {
        proof {
            use_type_invariant(self);
        }
        match &self.stage {
            ReconcileStage::Importing => ReconcileCommand::Import {
                spec: convert_to_domain_spec(self.import),
                namespace: self.import.namespace(),
            },
            ReconcileStage::CleaningUp => ReconcileCommand::Cleanup {
                spec: convert_to_domain_spec(self.import),
                namespace: self.import.namespace(),
            },
            ReconcileStage::Reporting(report) => ReconcileCommand::PatchStatus {
                name: report.name.clone(),
                namespace: self.import.namespace(),
                patch: status_patch(&report.status),
            },
        }
    }

    /// Where an event leads. An event that is no answer to [`Reconciliation::command`] leads
    /// nowhere. That a cleanup failed, or that a status could not be written, changes nothing.
    pub fn advance(self, event: ReconcileEvent) -> (turn: ReconcileTurn<'a>)
        ensures
            turn.is_of(self.resource()),
            turn@ == reconcile_step(self.stage(), event@),
    {
        proof {
            use_type_invariant(&self);
        }
        let Reconciliation { import, stage } = self;
        match (stage, event) {
            (ReconcileStage::Importing, ReconcileEvent::Imported(result)) => ReconcileTurn::Waiting(
                Reconciliation {
                    import,
                    stage: ReconcileStage::Reporting(report_import(import, result)),
                },
            ),
            (ReconcileStage::CleaningUp, ReconcileEvent::CleanedUp(result)) => ReconcileTurn::Done(
                settle_cleanup(result),
            ),
            (ReconcileStage::Reporting(report), ReconcileEvent::Patched(_)) => ReconcileTurn::Done(
                report.outcome,
            ),
            (stage, _) => ReconcileTurn::Waiting(Reconciliation { import, stage }),
        }
    }
}

} // verus!
