//! How the controller deals with a FerrisKeyRealmImport resource: what it imports, what it reports
//! in the resource's status, and when it looks at the resource again.
use crate::crds::{
    ClientImportSpec, ClusterCondition, ConditionView, FerrisKeyRealmImport,
    FerrisKeyRealmImportStatus, ImportStatusView, RoleImportSpec,
};
use crate::entities::{
    ClientImport, ClusterRef, RealmImport, RealmImportSpec, RealmImportStatus, RoleImport,
    StatusView,
};
use crate::error::{ErrorView, OperatorError};
use crate::json::{object, optional_text, optional_text_view, text, Json, JsonView};
use vstd::prelude::*;

verus! {

/// The finalizer that keeps a resource until its realm has been cleaned up.
pub const REALM_IMPORT_FINALIZER: &'static str = "ferriskey.rs/realm-import-finalizer";

/// When the controller looks at a resource again.
#[derive(Debug, Clone, Copy, PartialEq, Eq, Structural)]
pub enum Action {
    /// After this time, and whenever the resource changes.
    Requeue { seconds: u64 },
    /// When the resource changes.
    AwaitChange,
}

/// What a result that yields an action says.
pub open spec fn action_result(result: Result<Action, OperatorError>) -> Result<
    Action,
    ErrorView,
> {
    match result {
        Ok(action) => Ok(action),
        Err(e) => Err(e@),
    }
}

// ---- What is imported ----

/// A copy of an optional text.
fn copy_text(text: &Option<String>) -> (copy: Option<String>)
    ensures
        copy.deep_view() == text.deep_view(),
{
    match text {
        Some(text) => Some(text.clone()),
        None => None,
    }
}

/// A copy of a list of texts.
fn copy_texts(list: &Vec<String>) -> (copy: Vec<String>)
    ensures
        copy.deep_view() == list.deep_view(),
{
    let copy = list.clone();
    assert(copy.deep_view() =~= list.deep_view());
    copy
}

/// The roles that a resource asks for.
fn convert_roles(roles: &Vec<RoleImportSpec>) -> (converted: Vec<RoleImport>)
    ensures
        converted.deep_view() == roles.deep_view(),
{
    let mut converted: Vec<RoleImport> = Vec::new();
    let mut i: usize = 0;
    while i < roles.len()
        invariant
            i <= roles.len(),
            converted.len() == i,
            forall|k: int| 0 <= k < i ==> (#[trigger] converted@[k])@ == roles@[k]@,
        decreases roles.len() - i,
    {
        let role = &roles[i];
        converted.push(
            RoleImport {
                name: role.name.clone(),
                description: copy_text(&role.description),
                permissions: copy_texts(&role.permissions),
            },
        );
        i = i + 1;
    }
    assert(converted.deep_view() =~= roles.deep_view());
    converted
}

/// The clients that a resource asks for.
fn convert_clients(clients: &Vec<ClientImportSpec>) -> (converted: Vec<ClientImport>)
    ensures
        converted.deep_view() == clients.deep_view(),
{
    let mut converted: Vec<ClientImport> = Vec::new();
    let mut i: usize = 0;
    while i < clients.len()
        invariant
            i <= clients.len(),
            converted.len() == i,
            forall|k: int| 0 <= k < i ==> (#[trigger] converted@[k])@ == clients@[k]@,
        decreases clients.len() - i,
    {
        let client = &clients[i];
        converted.push(
            ClientImport {
                client_id: client.client_id.clone(),
                name: copy_text(&client.name),
                enabled: client.enabled,
                public_client: client.public_client,
                secret: copy_text(&client.secret),
                protocol: copy_text(&client.protocol),
                redirect_uris: copy_texts(&client.redirect_uris),
                client_type: copy_text(&client.client_type),
                direct_access_grants_enabled: client.direct_access_grants_enabled,
                service_accounts_enabled: client.service_accounts_enabled,
                roles: convert_roles(&client.roles),
            },
        );
        i = i + 1;
    }
    assert(converted.deep_view() =~= clients.deep_view());
    converted
}

/// Convert the FerrisKeyRealmImport CRD to the domain spec.
pub fn convert_to_domain_spec(import: &FerrisKeyRealmImport) -> (spec: RealmImportSpec)
    ensures
        spec@ == import.spec@,
{
    let realm = &import.spec.realm;
    RealmImportSpec {
        cluster_ref: ClusterRef { name: import.spec.cluster_ref.name.clone() },
        realm: RealmImport {
            name: realm.name.clone(),
            display_name: copy_text(&realm.display_name),
            enabled: realm.enabled,
            realm_roles: convert_roles(&realm.realm_roles),
            clients: convert_clients(&realm.clients),
        },
    }
}

/// The namespace that a resource lies in.
pub open spec fn namespace_or_default(namespace: Option<Seq<char>>) -> Seq<char> {
    match namespace {
        Some(namespace) => namespace,
        None => "default"@,
    }
}

/// The name of a resource: its own, else the prefix of the one it will get, else none.
pub open spec fn any_name(name: Option<Seq<char>>, generate_name: Option<Seq<char>>) -> Seq<char> {
    match name {
        Some(name) => name,
        None => match generate_name {
            Some(prefix) => prefix,
            None => Seq::empty(),
        },
    }
}

impl FerrisKeyRealmImport {
    /// The namespace that the resource lies in, and that its cluster is looked for in.
    pub fn namespace(&self) -> (namespace: String)
        ensures
            namespace@ == namespace_or_default(self.metadata.namespace.deep_view()),
    {
        match &self.metadata.namespace {
            Some(namespace) => namespace.clone(),
            None => "default".to_string(),
        }
    }

    /// The name of the resource: its own, else the prefix of the one it will get, else none.
    pub fn name_any(&self) -> (name: String)
        ensures
            name@ == any_name(
                self.metadata.name.deep_view(),
                self.metadata.generate_name.deep_view(),
            ),
    {
        match &self.metadata.name {
            Some(name) => name.clone(),
            None => match &self.metadata.generate_name {
                Some(prefix) => prefix.clone(),
                None => String::new(),
            },
        }
    }
}

// ---- What is reported ----

/// An import that failed: the error, and the text by which it displays itself.
#[derive(Debug, Clone, PartialEq, Eq)]
pub struct ImportFailure {
    pub error: OperatorError,
    pub text: String,
}

/// What is to be written to the status of the resource `name`, and what the reconciliation then
/// comes to.
#[derive(Debug)]
pub struct ImportReport {
    pub name: String,
    pub status: FerrisKeyRealmImportStatus,
    pub outcome: Result<Action, OperatorError>,
}

/// What an [`ImportFailure`] says.
pub struct FailureView {
    pub error: ErrorView,
    pub text: Seq<char>,
}

/// What the result of an import says.
pub open spec fn import_result(result: Result<RealmImportStatus, ImportFailure>) -> Result<
    StatusView,
    FailureView,
> {
    match result {
        Ok(status) => Ok(status@),
        Err(failure) => Err(FailureView { error: failure.error@, text: failure.text@ }),
    }
}

/// The status that is reported of an import.
pub open spec fn reported_status(result: Result<StatusView, FailureView>) -> ImportStatusView {
    match result {
        Ok(status) => ImportStatusView {
            ready: status.ready,
            message: status.message,
            phase: status.phase,
            conditions: None,
        },
        Err(failure) => ImportStatusView {
            ready: false,
            message: Some("Import error: "@ + failure.text),
            phase: Some("Error"@),
            conditions: None,
        },
    }
}

/// What a reconciliation comes to after an import: another look after five minutes, or the error.
pub open spec fn import_outcome(result: Result<StatusView, FailureView>) -> Result<
    Action,
    ErrorView,
> {
    match result {
        Ok(_) => Ok(Action::Requeue { seconds: 300 }),
        Err(failure) => Err(failure.error),
    }
}

/// What an import comes to: the status to report of it, and what follows.
pub fn report_import(
    import: &FerrisKeyRealmImport,
    result: Result<RealmImportStatus, ImportFailure>,
) -> (report: ImportReport)
    ensures
        report.name@ == any_name(
            import.metadata.name.deep_view(),
            import.metadata.generate_name.deep_view(),
        ),
        report.status@ == reported_status(import_result(result)),
        action_result(report.outcome) == import_outcome(import_result(result)),
{
    match result {
        Ok(status) => ImportReport {
            name: import.name_any(),
            status: FerrisKeyRealmImportStatus {
                ready: status.ready,
                message: status.message,
                phase: status.phase,
                conditions: None,
            },
            outcome: Ok(Action::Requeue { seconds: 300 }),
        },
        Err(failure) => ImportReport {
            name: import.name_any(),
            status: FerrisKeyRealmImportStatus {
                ready: false,
                message: Some("Import error: ".to_string().concat(failure.text.as_str())),
                phase: Some("Error".to_string()),
                conditions: None,
            },
            outcome: Err(failure.error),
        },
    }
}

/// A condition in a status, as JSON.
pub open spec fn condition_json(condition: ConditionView) -> JsonView {
    JsonView::Object(
        seq![
            ("conditionType"@, JsonView::Text(condition.condition_type)),
            ("status"@, JsonView::Text(condition.status)),
            ("lastTransitionTime"@, JsonView::Text(condition.last_transition_time)),
            ("reason"@, optional_text_view(condition.reason)),
            ("message"@, optional_text_view(condition.message)),
        ],
    )
}

/// A status, as JSON. What there is none of is `null`.
pub open spec fn status_json(status: ImportStatusView) -> JsonView {
    JsonView::Object(
        seq![
            ("ready"@, JsonView::Bool(status.ready)),
            ("message"@, optional_text_view(status.message)),
            ("phase"@, optional_text_view(status.phase)),
            (
                "conditions"@,
                match status.conditions {
                    Some(conditions) => JsonView::Array(
                        conditions.map_values(|c: ConditionView| condition_json(c)),
                    ),
                    None => JsonView::Null,
                },
            ),
        ],
    )
}

fn render_condition(condition: &ClusterCondition) -> (json: Json)
    ensures
        json@ == condition_json(condition@),
{
    let mut members: Vec<(String, Json)> = Vec::new();
    members.push(("conditionType".to_string(), text(condition.condition_type.as_str())));
    members.push(("status".to_string(), text(condition.status.as_str())));
    members.push(
        ("lastTransitionTime".to_string(), text(condition.last_transition_time.as_str())),
    );
    members.push(("reason".to_string(), optional_text(&condition.reason)));
    members.push(("message".to_string(), optional_text(&condition.message)));
    let json = object(members);
    assert(json@->Object_0 =~= condition_json(condition@)->Object_0);
    json
}

fn render_conditions(conditions: &Option<Vec<ClusterCondition>>) -> (json: Json)
    ensures
        json@ == (match conditions.deep_view() {
            Some(conditions) => JsonView::Array(
                conditions.map_values(|c: ConditionView| condition_json(c)),
            ),
            None => JsonView::Null,
        }),
{
    match conditions {
        None => Json::Null,
        Some(list) => {
            let mut items: Vec<Json> = Vec::new();
            let mut i: usize = 0;
            while i < list.len()
                invariant
                    i <= list.len(),
                    items.len() == i,
                    forall|k: int|
                        0 <= k < i ==> (#[trigger] items@[k])@ == condition_json(list@[k]@),
                decreases list.len() - i,
            {
                items.push(render_condition(&list[i]));
                i = i + 1;
            }
            let json = Json::Array(items);
            proof {
                let want = list.deep_view().map_values(|c: ConditionView| condition_json(c));
                assert(json@->Array_0 =~= want);
            }
            json
        },
    }
}

/// The merge patch that writes a status.
pub open spec fn status_patch_json(status: ImportStatusView) -> JsonView {
    JsonView::Object(seq![("status"@, status_json(status))])
}

/// The merge patch that writes a status to the status subresource of a resource.
pub fn status_patch(status: &FerrisKeyRealmImportStatus) -> (patch: Json)
    ensures
        patch@ == status_patch_json(status@),
{
    let mut members: Vec<(String, Json)> = Vec::new();
    members.push(("ready".to_string(), Json::Bool(status.ready)));
    members.push(("message".to_string(), optional_text(&status.message)));
    members.push(("phase".to_string(), optional_text(&status.phase)));
    members.push(("conditions".to_string(), render_conditions(&status.conditions)));
    let value = object(members);
    assert(value@->Object_0 =~= status_json(status@)->Object_0);
    let mut outer: Vec<(String, Json)> = Vec::new();
    outer.push(("status".to_string(), value));
    let patch = object(outer);
    assert(patch@->Object_0 =~= seq![("status"@, status_json(status@))]);
    patch
}

/// What became of a status patch: `error` is the text of the error where it failed.
pub fn update_import_status_reply(patched: Result<(), String>) -> (result: Result<
    (),
    OperatorError,
>)
    ensures
        match patched {
            Ok(_) => result is Ok,
            Err(error) => result is Err && result->Err_0@ == ErrorView::InternalServerError(
                "Failed to patch realm import status: "@ + error@,
            ),
        },
{
    match patched {
        Ok(_) => Ok(()),
        Err(error) => Err(
            OperatorError::InternalServerError {
                message: "Failed to patch realm import status: ".to_string().concat(
                    error.as_str(),
                ),
            },
        ),
    }
}

// ---- What follows ----

/// What a reconciliation comes to after a cleanup. An error of the cleanup does not block the
/// deletion of the resource.
pub fn settle_cleanup(result: Result<(), OperatorError>) -> (outcome: Result<Action, OperatorError>)
    ensures
        outcome == Ok::<Action, OperatorError>(Action::AwaitChange),
{
    match result {
        Ok(_) => Ok(Action::AwaitChange),
        Err(_) => Ok(Action::AwaitChange),
    }
}

/// Why handling a resource under its finalizer failed.
#[derive(Debug, Clone, PartialEq, Eq)]
pub struct FinalizerFailure {
    /// The code of the API server's error, where it refused to remove the finalizer
    pub removal_code: Option<u16>,
    /// The debugging text of the failure
    pub debug: String,
}

/// What a reconciliation comes to: what was done under the finalizer, but that a resource is gone
/// before its finalizer could be removed is no error.
pub fn settle_finalizer(result: Result<Action, FinalizerFailure>) -> (outcome: Result<
    Action,
    OperatorError,
>)
    ensures
        action_result(outcome) == (match result {
            Ok(action) => Ok(action),
            Err(failure) => if failure.removal_code == Some(404u16) {
                Ok(Action::AwaitChange)
            } else {
                Err(ErrorView::InternalServerError("finalizer error: "@ + failure.debug@))
            },
        }),
{
    match result {
        Ok(action) => Ok(action),
        Err(failure) => {
            if let Some(code) = failure.removal_code {
                if code == 404 {
                    return Ok(Action::AwaitChange);
                }
            }
            Err(
                OperatorError::InternalServerError {
                    message: "finalizer error: ".to_string().concat(failure.debug.as_str()),
                },
            )
        },
    }
}

/// When the controller looks at a resource again whose reconciliation failed.
pub fn error_policy_import(error: &OperatorError) -> (action: Action)
    ensures
        action == (Action::Requeue { seconds: 20 }),
{
    Action::Requeue { seconds: 20 }
}

} // verus!
