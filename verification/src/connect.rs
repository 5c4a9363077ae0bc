//! How the operator gets at the API of a cluster: it reads the cluster, then the secret with the
//! administrator's credentials, then logs in.
//!
//! The operator performs no I/O by itself. A stage says what is to be done next, as a [`Command`];
//! what came of it comes back as an [`Event`] and leads to the next stage.
use crate::api::{
    authenticate_call, authenticate_reply, authenticate_request, authenticate_result,
};
use crate::credentials::{admin_credentials, credentials_result, SecretData, SecretView};
use crate::crds::{ClusterView, FerrisKeyClusterSpec};
use crate::error::{ErrorView, OperatorError};
use crate::http::{
    HttpRequest, JsonDelivery, JsonDeliveryView, RequestView, TextDelivery, TextDeliveryView,
};
use crate::text::{trim_trailing_slashes, without_trailing_slashes};
use vstd::prelude::*;

verus! {

/// Something that is to be done outside.
#[derive(Debug, PartialEq, Eq)]
pub enum Command {
    /// Read the FerrisKeyCluster of this name.
    GetCluster { name: String, namespace: String },
    /// Read the Secret of this name.
    GetSecret { name: String, namespace: String },
    /// Send a request and read the bytes of its reply.
    CallForJson(HttpRequest),
    /// Send a request and read its reply only where it was refused.
    CallForText(HttpRequest),
}

/// What came of a [`Command`], in the same order. Errors are given by their text.
#[derive(Debug)]
pub enum Event {
    Cluster(Result<FerrisKeyClusterSpec, String>),
    Secret(Result<SecretData, String>),
    Json(JsonDelivery),
    Text(TextDelivery),
}

/// What a [`Command`] says.
pub enum CommandView {
    GetCluster(Seq<char>, Seq<char>),
    GetSecret(Seq<char>, Seq<char>),
    CallForJson(RequestView),
    CallForText(RequestView),
}

/// What an [`Event`] says.
pub enum EventView {
    Cluster(Result<ClusterView, Seq<char>>),
    Secret(Result<SecretView, Seq<char>>),
    Json(JsonDeliveryView),
    Text(TextDeliveryView),
}

impl View for Command {
    type V = CommandView;

    open spec fn view(&self) -> CommandView {
        match self {
            Command::GetCluster { name, namespace } => CommandView::GetCluster(name@, namespace@),
            Command::GetSecret { name, namespace } => CommandView::GetSecret(name@, namespace@),
            Command::CallForJson(request) => CommandView::CallForJson(request@),
            Command::CallForText(request) => CommandView::CallForText(request@),
        }
    }
}

impl View for Event {
    type V = EventView;

    open spec fn view(&self) -> EventView {
        match self {
            Event::Cluster(result) => EventView::Cluster(
                match result {
                    Ok(cluster) => Ok(cluster@),
                    Err(error) => Err(error@),
                },
            ),
            Event::Secret(result) => EventView::Secret(
                match result {
                    Ok(secret) => Ok(secret@),
                    Err(error) => Err(error@),
                },
            ),
            Event::Json(delivery) => EventView::Json(delivery@),
            Event::Text(delivery) => EventView::Text(delivery@),
        }
    }
}

/// Whether an event is of the kind that a command calls for.
pub open spec fn answers(event: EventView, command: CommandView) -> bool {
    match command {
        CommandView::GetCluster(_, _) => event is Cluster,
        CommandView::GetSecret(_, _) => event is Secret,
        CommandView::CallForJson(_) => event is Json,
        CommandView::CallForText(_) => event is Text,
    }
}

/// Where the operator stands on its way to a cluster's API.
#[derive(Debug, PartialEq, Eq)]
pub enum ConnectStage {
    /// The cluster is to be read.
    Cluster,
    /// The secret with the credentials is to be read.
    Secret { api_url: String, secret_name: String },
    /// The operator is to log in.
    Login { api_url: String, username: String, password: String },
}

/// Access to the API of a cluster.
#[derive(Debug, PartialEq, Eq)]
pub struct Session {
    /// The API's URL, without a slash at its end
    pub api_url: String,
    /// The bearer token
    pub token: String,
}

/// Where an event leads on the way to a cluster's API.
#[derive(Debug, PartialEq, Eq)]
pub enum ConnectTurn {
    Waiting(ConnectStage),
    Connected(Session),
    Failed(OperatorError),
}

/// What a [`ConnectStage`] says.
pub enum ConnectStageView {
    Cluster,
    Secret { api_url: Seq<char>, secret_name: Seq<char> },
    Login { api_url: Seq<char>, username: Seq<char>, password: Seq<char> },
}

/// What a [`Session`] says.
pub struct SessionView {
    pub api_url: Seq<char>,
    pub token: Seq<char>,
}

/// What a [`ConnectTurn`] says.
pub enum ConnectTurnView {
    Waiting(ConnectStageView),
    Connected(SessionView),
    Failed(ErrorView),
}

impl View for ConnectStage {
    type V = ConnectStageView;

    open spec fn view(&self) -> ConnectStageView {
        match self {
            ConnectStage::Cluster => ConnectStageView::Cluster,
            ConnectStage::Secret { api_url, secret_name } => ConnectStageView::Secret {
                api_url: api_url@,
                secret_name: secret_name@,
            },
            ConnectStage::Login { api_url, username, password } => ConnectStageView::Login {
                api_url: api_url@,
                username: username@,
                password: password@,
            },
        }
    }
}

impl View for Session {
    type V = SessionView;

    open spec fn view(&self) -> SessionView {
        SessionView { api_url: self.api_url@, token: self.token@ }
    }
}

impl View for ConnectTurn {
    type V = ConnectTurnView;

    open spec fn view(&self) -> ConnectTurnView {
        match self {
            ConnectTurn::Waiting(stage) => ConnectTurnView::Waiting(stage@),
            ConnectTurn::Connected(session) => ConnectTurnView::Connected(session@),
            ConnectTurn::Failed(e) => ConnectTurnView::Failed(e@),
        }
    }
}

/// The name of the secret that holds the administrator's credentials of a cluster.
pub open spec fn secret_name_for(cluster: Seq<char>) -> Seq<char> {
    "ferriskey-admin-"@ + cluster
}

/// What is to be done at a stage, for the cluster of this name.
pub open spec fn connect_command(
    cluster: Seq<char>,
    namespace: Seq<char>,
    stage: ConnectStageView,
) -> CommandView {
    match stage {
        ConnectStageView::Cluster => CommandView::GetCluster(cluster, namespace),
        ConnectStageView::Secret { secret_name, .. } => CommandView::GetSecret(
            secret_name,
            namespace,
        ),
        ConnectStageView::Login { api_url, username, password } => CommandView::CallForJson(
            authenticate_call(api_url, username, password),
        ),
    }
}

/// Where an event leads from a stage. An event that is no answer leads nowhere.
pub open spec fn connect_step(
    cluster: Seq<char>,
    namespace: Seq<char>,
    stage: ConnectStageView,
    event: EventView,
) -> ConnectTurnView {
    match (stage, event) {
        (ConnectStageView::Cluster, EventView::Cluster(result)) => match result {
            Ok(found) => ConnectTurnView::Waiting(
                ConnectStageView::Secret {
                    api_url: without_trailing_slashes(found.api_url),
                    secret_name: secret_name_for(found.name),
                },
            ),
            Err(error) => ConnectTurnView::Failed(
                ErrorView::ClusterNotFound(
                    "FerrisKeyCluster '"@ + cluster + "' not found in namespace '"@ + namespace
                        + "': "@ + error,
                ),
            ),
        },
        (ConnectStageView::Secret { api_url, secret_name }, EventView::Secret(result)) => {
            match result {
                Ok(secret) => match credentials_result(secret) {
                    Ok((username, password)) => ConnectTurnView::Waiting(
                        ConnectStageView::Login { api_url, username, password },
                    ),
                    Err(e) => ConnectTurnView::Failed(e),
                },
                Err(error) => ConnectTurnView::Failed(
                    ErrorView::InternalServerError(
                        "Admin secret '"@ + secret_name + "' not found: "@ + error,
                    ),
                ),
            }
        },
        (ConnectStageView::Login { api_url, .. }, EventView::Json(delivery)) => {
            match authenticate_result(delivery) {
                Ok(token) => ConnectTurnView::Connected(SessionView { api_url, token }),
                Err(e) => ConnectTurnView::Failed(e),
            }
        },
        _ => ConnectTurnView::Waiting(stage),
    }
}

/// The name of the secret that holds the administrator's credentials of a cluster.
pub fn admin_secret_name(cluster_name: &str) -> (name: String)
    ensures
        name@ == secret_name_for(cluster_name@),
{
    "ferriskey-admin-".to_string().concat(cluster_name)
}

impl ConnectStage {
    /// What is to be done at this stage, for the cluster of this name.
    pub fn command(&self, cluster_name: &str, namespace: &str) -> (command: Command)
        ensures
            command@ == connect_command(cluster_name@, namespace@, self@),
    {
        match self {
            ConnectStage::Cluster => Command::GetCluster {
                name: cluster_name.to_string(),
                namespace: namespace.to_string(),
            },
            ConnectStage::Secret { api_url: _, secret_name } => Command::GetSecret {
                name: secret_name.clone(),
                namespace: namespace.to_string(),
            },
            ConnectStage::Login { api_url, username, password } => Command::CallForJson(
                authenticate_request(api_url.as_str(), username.as_str(), password.as_str()),
            ),
        }
    }

    /// Where an event leads from this stage. An event that is no answer leads nowhere.
    pub fn advance(self, cluster_name: &str, namespace: &str, event: &Event) -> (turn: ConnectTurn)
        ensures
            turn@ == connect_step(cluster_name@, namespace@, self@, event@),
    {
        match (self, event) {
            (ConnectStage::Cluster, Event::Cluster(result)) => match result {
                Ok(found) => ConnectTurn::Waiting(
                    ConnectStage::Secret {
                        api_url: trim_trailing_slashes(found.api.api_url.as_str()),
                        secret_name: admin_secret_name(found.name.as_str()),
                    },
                ),
                Err(error) => ConnectTurn::Failed(
                    OperatorError::ClusterNotFound {
                        message: "FerrisKeyCluster '".to_string().concat(cluster_name).concat(
                            "' not found in namespace '",
                        ).concat(namespace).concat("': ").concat(error.as_str()),
                    },
                ),
            },
            (ConnectStage::Secret { api_url, secret_name }, Event::Secret(result)) => match result {
                Ok(secret) => match admin_credentials(secret) {
                    Ok((username, password)) => ConnectTurn::Waiting(
                        ConnectStage::Login { api_url, username, password },
                    ),
                    Err(e) => ConnectTurn::Failed(e),
                },
                Err(error) => ConnectTurn::Failed(
                    OperatorError::InternalServerError {
                        message: "Admin secret '".to_string().concat(secret_name.as_str()).concat(
                            "' not found: ",
                        ).concat(error.as_str()),
                    },
                ),
            },
            (ConnectStage::Login { api_url, .. }, Event::Json(delivery)) => {
                match authenticate_reply(delivery) {
                    Ok(token) => ConnectTurn::Connected(Session { api_url, token }),
                    Err(e) => ConnectTurn::Failed(e),
                }
            },
            (stage, _) => ConnectTurn::Waiting(stage),
        }
    }
}

} // verus!
