//! The removal of an imported realm, step by step: get at the cluster's API, then delete the
//! realm, which takes its clients and roles with it.
use crate::api::{
    delete_realm_call, delete_realm_reply, delete_realm_request, delete_realm_result,
};
use crate::connect::{
    connect_command, connect_step, Command, CommandView, ConnectStage, ConnectStageView,
    ConnectTurn, ConnectTurnView, Event, EventView, Session, SessionView,
};
use crate::entities::RealmImportSpec;
use crate::error::{unit_result, ErrorView, OperatorError};
use crate::import_flow::ImportJob;
use vstd::prelude::*;

verus! {

/// Where a removal stands: what is to be done next.
#[derive(Debug, PartialEq, Eq)]
enum CleanupStage {
    Connect(ConnectStage),
    Delete { session: Session },
}

/// What the stage of a removal says.
pub enum CleanupStageView {
    Connect(ConnectStageView),
    Delete { session: SessionView },
}

/// Where an event leads in a removal.
pub enum CleanupTurnView {
    Waiting(CleanupStageView),
    Done(Result<(), ErrorView>),
}

impl View for CleanupStage {
    type V = CleanupStageView;

    closed spec fn view(&self) -> CleanupStageView {
        match self {
            CleanupStage::Connect(stage) => CleanupStageView::Connect(stage@),
            CleanupStage::Delete { session } => CleanupStageView::Delete { session: session@ },
        }
    }
}

/// What is to be done at a stage of the removal of what `job` imports.
pub open spec fn cleanup_command(job: ImportJob, stage: CleanupStageView) -> CommandView {
    match stage {
        CleanupStageView::Connect(stage) => connect_command(
            job.import.cluster,
            job.namespace,
            stage,
        ),
        CleanupStageView::Delete { session } => CommandView::CallForText(
            delete_realm_call(session.api_url, session.token, job.import.realm.name),
        ),
    }
}

/// Where an event leads from a stage. An event that is no answer leads nowhere.
pub open spec fn cleanup_step(
    job: ImportJob,
    stage: CleanupStageView,
    event: EventView,
) -> CleanupTurnView {
    match (stage, event) {
        (CleanupStageView::Connect(stage), event) => match connect_step(
            job.import.cluster,
            job.namespace,
            stage,
            event,
        ) {
            ConnectTurnView::Waiting(stage) => CleanupTurnView::Waiting(
                CleanupStageView::Connect(stage),
            ),
            ConnectTurnView::Connected(session) => CleanupTurnView::Waiting(
                CleanupStageView::Delete { session },
            ),
            ConnectTurnView::Failed(e) => CleanupTurnView::Done(Err(e)),
        },
        (CleanupStageView::Delete { session }, EventView::Text(delivery)) => CleanupTurnView::Done(
            delete_realm_result(job.import.realm.name, delivery),
        ),
        _ => CleanupTurnView::Waiting(stage),
    }
}

/// The stage that a removal starts at.
pub open spec fn cleanup_start() -> CleanupStageView {
    CleanupStageView::Connect(ConnectStageView::Cluster)
}

/// A removal under way.
#[derive(Debug)]
pub struct CleanupFlow<'a> {
    spec: &'a RealmImportSpec,
    namespace: &'a str,
    stage: CleanupStage,
}

/// Where an event leads: a removal that goes on, or its result.
#[derive(Debug)]
pub enum CleanupTurn<'a> {
    Waiting(CleanupFlow<'a>),
    Done(Result<(), OperatorError>),
}

impl<'a> CleanupTurn<'a> {
    /// What this turn says.
    pub open spec fn view(&self) -> CleanupTurnView {
        match self {
            CleanupTurn::Waiting(flow) => CleanupTurnView::Waiting(flow.stage()),
            CleanupTurn::Done(result) => CleanupTurnView::Done(unit_result(*result)),
        }
    }

    /// Whether a removal that goes on is still that of the same job.
    pub open spec fn is_of(&self, job: ImportJob) -> bool {
        match self {
            CleanupTurn::Waiting(flow) => flow.job() == job,
            CleanupTurn::Done(_) => true,
        }
    }
}

impl<'a> CleanupFlow<'a> {
    /// What is being removed: what this job imports.
    pub closed spec fn job(&self) -> ImportJob {
        ImportJob { import: self.spec@, namespace: self.namespace@ }
    }

    /// Where the removal stands.
    pub closed spec fn stage(&self) -> CleanupStageView {
        self.stage@
    }

    /// Starts the removal of a realm from a cluster of this namespace.
    pub fn start(spec: &'a RealmImportSpec, namespace: &'a str) -> (flow: CleanupFlow<'a>)
        ensures
            flow.job() == (ImportJob { import: spec@, namespace: namespace@ }),
            flow.stage() == cleanup_start(),
    {
        CleanupFlow { spec, namespace, stage: CleanupStage::Connect(ConnectStage::Cluster) }
    }

    /// What is to be done next.
    pub fn command(&self) -> (command: Command)
        ensures
            command@ == cleanup_command(self.job(), self.stage()),
    {
        match &self.stage {
            CleanupStage::Connect(stage) => stage.command(
                self.spec.cluster_ref.name.as_str(),
                self.namespace,
            ),
            CleanupStage::Delete { session } => Command::CallForText(
                delete_realm_request(
                    session.api_url.as_str(),
                    session.token.as_str(),
                    self.spec.realm.name.as_str(),
                ),
            ),
        }
    }

    /// Where an event leads. An event that is no answer to [`CleanupFlow::command`] leads nowhere.
    pub fn advance(self, event: &Event) -> (turn: CleanupTurn<'a>)
        ensures
            turn.is_of(self.job()),
            turn@ == cleanup_step(self.job(), self.stage(), event@),
    {
        let CleanupFlow { spec, namespace, stage } = self;
        match (stage, event) {
            (CleanupStage::Connect(stage), event) => match stage.advance(
                spec.cluster_ref.name.as_str(),
                namespace,
                event,
            ) {
                ConnectTurn::Waiting(stage) => CleanupTurn::Waiting(
                    CleanupFlow { spec, namespace, stage: CleanupStage::Connect(stage) },
                ),
                ConnectTurn::Connected(session) => CleanupTurn::Waiting(
                    CleanupFlow { spec, namespace, stage: CleanupStage::Delete { session } },
                ),
                ConnectTurn::Failed(e) => CleanupTurn::Done(Err(e)),
            },
            (CleanupStage::Delete { session: _ }, Event::Text(delivery)) => CleanupTurn::Done(
                delete_realm_reply(spec.realm.name.as_str(), delivery),
            ),
            (stage, _) => CleanupTurn::Waiting(CleanupFlow { spec, namespace, stage }),
        }
    }
}

} // verus!
