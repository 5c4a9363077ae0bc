//! Laws that relate several parts of the operator.
use crate::api::{
    authenticate_call, authenticate_result, client_members, create_client_call,
    create_client_result, create_realm_call, create_realm_result, create_redirect_call,
    create_redirect_result, create_role_call, create_role_result, delete_realm_call,
    delete_realm_result, realm_body,
};
use crate::cleanup_flow::{
    cleanup_command, cleanup_start, cleanup_step, CleanupStageView, CleanupTurnView,
};
use crate::connect::{
    answers, connect_step, secret_name_for, CommandView, ConnectStageView,
    ConnectTurnView, EventView, SessionView,
};
use crate::controller::{
    condition_json, import_outcome, reported_status, status_json, status_patch_json, Action,
    FailureView,
};
use crate::credentials::credentials_result;
use crate::crds::{ClusterView, ConditionView, ImportStatusView};
use crate::entities::{ClientView, ImportView, RealmView, RoleView, StatusView};
use crate::error::ErrorView;
use crate::http::{is_success_code, JsonDeliveryView, TextDeliveryView};
use crate::import_flow::{imported, ImportJob, ImportStageView, ImportTurnView, WorkView};
use crate::json::JsonView;
use crate::plan::{
    answered, at_start, has_created_realm, import_follows_its_plan, learned, no_facts, performed,
    ImportFacts,
};
use crate::reconcile::{
    reconcile_command, reconcile_start, reconcile_step, FinalizerEvent, ReconcileCommandView,
    ReconcileEventView, ReconcileStageView, ReconcileTurnView, ResourceView,
};
use crate::services::{cleanup_refusal, import_refusal};
use crate::text::{trimming_drops_only_slashes, trimming_forgets_slashes};
use vstd::prelude::*;

verus! {

// ---- Events and stages ----

/// An event that is no answer to the command of a stage changes nothing, and every answer leads
/// to another stage or to the end.
pub proof fn only_answers_move_an_import(job: ImportJob, stage: ImportStageView, event: EventView)
    requires
        job.has_stage(stage),
    ensures
        answers(event, job.command(stage)) <==> job.step(stage, event) != ImportTurnView::Waiting(
            stage,
        ),
{
}

/// An event that is no answer to the command of a stage changes nothing, and every answer leads
/// to another stage or to the end.
pub proof fn only_answers_move_a_cleanup(job: ImportJob, stage: CleanupStageView, event: EventView)
    ensures
        answers(event, cleanup_command(job, stage)) <==> cleanup_step(job, stage, event)
            != CleanupTurnView::Waiting(stage),
{
}

/// An error of an import tells by its kind what went wrong: the cluster could not be read, its
/// administrator's secret was of no use, the login was refused, or a part of the realm could not
/// be created.
pub proof fn import_errors_tell_what_failed(
    job: ImportJob,
    stage: ImportStageView,
    event: EventView,
    error: ErrorView,
)
    requires
        job.step(stage, event) == ImportTurnView::Done(Err::<StatusView, ErrorView>(error)),
    ensures
        match stage {
            ImportStageView::Connect(ConnectStageView::Cluster) => error is ClusterNotFound,
            ImportStageView::Connect(ConnectStageView::Secret { .. }) => error
                is InternalServerError,
            ImportStageView::Connect(ConnectStageView::Login { .. }) => error is AuthError,
            _ => error is RealmImportError,
        },
{
}

/// A redirect URI that the API refuses does not stop an import: whatever the API answers, the
/// import goes on to the same stage as after a success.
pub proof fn refused_redirects_are_passed_over(
    job: ImportJob,
    work: WorkView,
    client: int,
    uuid: Seq<char>,
    index: int,
    code: int,
    text: Seq<char>,
)
    ensures
        job.step(
            ImportStageView::Redirect { work, client, uuid, index },
            EventView::Text(TextDeliveryView::Answered(code, text)),
        ) == job.to_redirect(work, client, uuid, index + 1),
{
}

/// That the realm is there already does not stop an import. In such a realm, that a role is there
/// already leads on to the same stage as after a success, and that a client is there already leads
/// on to the next client.
pub proof fn what_is_there_is_passed_over(
    job: ImportJob,
    stage: ImportStageView,
    code: int,
    text: Seq<char>,
    conflict_text: Seq<char>,
    body: Result<Seq<u8>, Seq<char>>,
)
    requires
        is_success_code(code),
    ensures
        (stage is RealmRole || stage is ClientRole) && !has_created_realm(
            ImportTurnView::Waiting(stage),
        ) ==> job.step(stage, EventView::Text(TextDeliveryView::Answered(409, conflict_text)))
            == job.step(stage, EventView::Text(TextDeliveryView::Answered(code, text))),
        stage matches ImportStageView::Realm { session } ==> job.step(
            stage,
            EventView::Text(TextDeliveryView::Answered(409, conflict_text)),
        ) == job.to_realm_role(WorkView::begin(session, false), 0),
        stage matches ImportStageView::Client { work, index } ==> !work.realm_created ==> job.step(
            stage,
            EventView::Json(JsonDeliveryView::Answered(409, body)),
        ) == job.to_client(work.passing(job.import.realm.clients[index]), index + 1),
{
}

/// Any other refusal to create something, and any request that could not be sent, ends an import
/// with the error that tells of it. So does a role or a client that is there already, in a realm
/// that the import has created.
pub proof fn refusals_end_an_import(
    job: ImportJob,
    stage: ImportStageView,
    text: TextDeliveryView,
    json: JsonDeliveryView,
    error: ErrorView,
)
    ensures
        ({
            let realm = job.import.realm;
            let failed = ImportTurnView::Done(Err::<StatusView, ErrorView>(error));
            match stage {
                ImportStageView::Connect(_) => true,
                ImportStageView::Realm { .. } => create_realm_result(realm.name, text) == Err::<
                    (),
                    ErrorView,
                >(error) && !text.is_conflict() ==> job.step(stage, EventView::Text(text))
                    == failed,
                ImportStageView::RealmRole { work, index } => create_role_result(
                    realm.name,
                    realm.realm_roles[index].name,
                    text,
                ) == Err::<(), ErrorView>(error) && (work.realm_created || !text.is_conflict())
                    ==> job.step(stage, EventView::Text(text)) == failed,
                ImportStageView::Client { work, index } => create_client_result(
                    realm.name,
                    realm.clients[index].client_id,
                    json,
                ) == Err::<Seq<char>, ErrorView>(error) && (work.realm_created
                    || !json.is_conflict()) ==> job.step(stage, EventView::Json(json)) == failed,
                ImportStageView::Redirect { client, index, .. } => create_redirect_result(
                    realm.clients[client].redirect_uris[index],
                    realm.clients[client].client_id,
                    text,
                ) == Err::<bool, ErrorView>(error) ==> job.step(stage, EventView::Text(text))
                    == failed,
                ImportStageView::ClientRole { work, client, index, .. } => create_role_result(
                    realm.name,
                    realm.clients[client].roles[index].name,
                    text,
                ) == Err::<(), ErrorView>(error) && (work.realm_created || !text.is_conflict())
                    ==> job.step(stage, EventView::Text(text)) == failed,
            }
        }),
{
}

/// The URL of a session has no slash at its end.
pub proof fn sessions_have_trimmed_urls(
    cluster: Seq<char>,
    namespace: Seq<char>,
    found: ClusterView,
)
    ensures
        connect_step(
            cluster,
            namespace,
            ConnectStageView::Cluster,
            EventView::Cluster(Ok(found)),
        ) matches ConnectTurnView::Waiting(ConnectStageView::Secret { api_url, .. }) && (
        api_url.len() > 0 ==> api_url.last() != '/'),
{
    trimming_drops_only_slashes(found.api_url);
}

/// Slashes at the end of a cluster's URL make no difference.
pub proof fn slashes_at_the_end_make_no_difference(
    cluster: Seq<char>,
    namespace: Seq<char>,
    name: Seq<char>,
    api_url: Seq<char>,
    slashes: Seq<char>,
)
    requires
        forall|i: int| 0 <= i < slashes.len() ==> slashes[i] == '/',
    ensures
        connect_step(
            cluster,
            namespace,
            ConnectStageView::Cluster,
            EventView::Cluster(Ok(ClusterView { name, api_url: api_url + slashes })),
        ) == connect_step(
            cluster,
            namespace,
            ConnectStageView::Cluster,
            EventView::Cluster(Ok(ClusterView { name, api_url })),
        ),
{
    trimming_forgets_slashes(api_url, slashes);
}

// ---- Requests ----

/// Whether a command is a request to a part of the API under `/realms`, with the session's token.
pub open spec fn is_authorized(command: CommandView, session: SessionView) -> bool {
    let request = match command {
        CommandView::CallForJson(request) => Some(request),
        CommandView::CallForText(request) => Some(request),
        _ => None,
    };
    match request {
        Some(request) => request.bearer == Some(session.token) && (session.api_url
            + "/realms"@).is_prefix_of(request.url),
        None => false,
    }
}

/// A URL that goes on after `/realms/` begins with `/realms`.
proof fn realm_urls(api_url: Seq<char>, others: Seq<char>)
    ensures
        (api_url + "/realms"@).is_prefix_of(api_url + "/realms/"@ + others),
{
    reveal_strlit("/realms");
    reveal_strlit("/realms/");
    let url = api_url + "/realms/"@ + others;
    assert forall|i: int| 0 <= i < (api_url + "/realms"@).len() implies (api_url + "/realms"@)[i]
        == url[i] by {
        if i >= api_url.len() {
            assert("/realms"@[i - api_url.len()] == "/realms/"@[i - api_url.len()]);
        }
    }
}

proof fn client_plan_is_authorized(
    job: ImportJob,
    session: SessionView,
    index: int,
    uuid: Option<Seq<char>>,
)
    ensures
        ({
            let plan = job.client_plan(session, job.import.realm.clients[index], uuid);
            forall|i: int| 0 <= i < plan.len() ==> is_authorized(#[trigger] plan[i], session)
        }),
{
    let client = job.import.realm.clients[index];
    let plan = job.client_plan(session, client, uuid);
    let realm = job.import.realm.name;
    assert forall|i: int| 0 <= i < plan.len() implies is_authorized(
        #[trigger] plan[i],
        session,
    ) by {
        let url = session.api_url;
        if i == 0 {
            realm_urls(url, realm + "/clients"@);
            assert(url + "/realms/"@ + realm + "/clients"@ =~= url + "/realms/"@ + (realm
                + "/clients"@));
        } else if i - 1 < client.redirect_uris.len() {
            let others = realm + "/clients/"@ + uuid->0 + "/redirects"@;
            realm_urls(url, others);
            assert(url + "/realms/"@ + realm + "/clients/"@ + uuid->0 + "/redirects"@ =~= url
                + "/realms/"@ + others);
        } else {
            let others = realm + "/clients/"@ + uuid->0 + "/roles"@;
            realm_urls(url, others);
            assert(url + "/realms/"@ + realm + "/clients/"@ + uuid->0 + "/roles"@ =~= url
                + "/realms/"@ + others);
        }
    }
}

proof fn clients_plan_is_authorized(
    job: ImportJob,
    session: SessionView,
    uuids: Seq<Option<Seq<char>>>,
    from: int,
)
    ensures
        ({
            let plan = job.clients_plan(session, uuids, from);
            forall|i: int| 0 <= i < plan.len() ==> is_authorized(#[trigger] plan[i], session)
        }),
    decreases job.import.realm.clients.len() - from,
{
    if 0 <= from < job.import.realm.clients.len() {
        client_plan_is_authorized(job, session, from, uuids[from]);
        clients_plan_is_authorized(job, session, uuids, from + 1);
        let first = job.client_plan(session, job.import.realm.clients[from], uuids[from]);
        let others = job.clients_plan(session, uuids, from + 1);
        let plan = job.clients_plan(session, uuids, from);
        assert forall|i: int| 0 <= i < plan.len() implies is_authorized(
            #[trigger] plan[i],
            session,
        ) by {
            if i < first.len() {
                assert(plan[i] == first[i]);
            } else {
                assert(plan[i] == others[i - first.len()]);
            }
        }
    }
}

/// After its login an import sends nothing but requests to the cluster's API under `/realms`, each
/// with the token of the login.
pub proof fn import_is_authorized(job: ImportJob, events: Seq<EventView>, i: int)
    requires
        answered(job, at_start(), events),
        3 <= i < events.len(),
    ensures
        is_authorized(
            performed(job, at_start(), events)[i],
            learned(job, at_start(), events).session(),
        ),
{
    let facts = learned(job, at_start(), events);
    let session = facts.session();
    let plan = job.plan(facts);
    let realm = job.import.realm;
    import_follows_its_plan(job, events);
    assert(performed(job, at_start(), events)[i] == plan[i]);
    clients_plan_is_authorized(job, session, facts.uuids, 0);
    let roles = job.roles_plan(session, None, realm.realm_roles);
    if i == 3 {
    } else if i - 4 < roles.len() {
        assert(plan[i] == roles[i - 4]);
        realm_urls(session.api_url, realm.name + "/roles"@);
        assert(session.api_url + "/realms/"@ + realm.name + "/roles"@ =~= session.api_url
            + "/realms/"@ + (realm.name + "/roles"@));
    } else {
        assert(plan[i] == job.clients_plan(session, facts.uuids, 0)[i - 4 - roles.len()]);
    }
}

/// Whether a realm is enabled is imported with it: where two specifications differ in that, the
/// requests that create their realms differ.
pub proof fn plans_tell_whether_a_realm_is_enabled(
    job: ImportJob,
    facts: ImportFacts,
    other_job: ImportJob,
    other_facts: ImportFacts,
)
    requires
        job.import.realm.enabled != other_job.import.realm.enabled,
    ensures
        job.plan(facts)[3] != other_job.plan(other_facts)[3],
        job.plan(facts) != other_job.plan(other_facts),
{
    let realm = job.import.realm;
    let other = other_job.import.realm;
    let members = realm_body(realm.name, realm.display_name, realm.enabled)->Object_0;
    let other_members = realm_body(other.name, other.display_name, other.enabled)->Object_0;
    assert(members.last().1 == JsonView::Bool(realm.enabled));
    assert(other_members.last().1 == JsonView::Bool(other.enabled));
    assert(members != other_members);
}

/// Whether a realm is enabled is told to the API: two imports that differ in that have sent
/// different requests by the time that their realms are created.
pub proof fn imports_tell_whether_a_realm_is_enabled(
    job: ImportJob,
    events: Seq<EventView>,
    other_job: ImportJob,
    other_events: Seq<EventView>,
)
    requires
        job.import.realm.enabled != other_job.import.realm.enabled,
        answered(job, at_start(), events),
        answered(other_job, at_start(), other_events),
        events.len() >= 4,
        other_events.len() >= 4,
    ensures
        performed(job, at_start(), events)[3] != performed(other_job, at_start(), other_events)[3],
{
    import_follows_its_plan(job, events);
    import_follows_its_plan(other_job, other_events);
    plans_tell_whether_a_realm_is_enabled(
        job,
        learned(job, at_start(), events),
        other_job,
        learned(other_job, at_start(), other_events),
    );
}

/// Whether no two members of a JSON object have the same name. What is no object has no members.
pub open spec fn has_distinct_names(json: JsonView) -> bool {
    json matches JsonView::Object(members) ==> forall|i: int, j: int|
        0 <= i < j < members.len() ==> (#[trigger] members[i]).0 != (#[trigger] members[j]).0
}

/// No body that is sent, and no status that is written, says a thing twice: the names of its
/// members are distinct.
pub proof fn bodies_have_distinct_names(
    api_url: Seq<char>,
    token: Seq<char>,
    username: Seq<char>,
    password: Seq<char>,
    realm: RealmView,
    client: ClientView,
    uuid: Option<Seq<char>>,
    role: RoleView,
    uri: Seq<char>,
    status: ImportStatusView,
    condition: ConditionView,
)
    ensures
        has_distinct_names(authenticate_call(api_url, username, password).body->0),
        has_distinct_names(
            create_realm_call(
                api_url,
                token,
                realm.name,
                realm.display_name,
                realm.enabled,
            ).body->0,
        ),
        has_distinct_names(create_client_call(api_url, token, realm.name, client).body->0),
        has_distinct_names(create_role_call(api_url, token, realm.name, uuid, role).body->0),
        uuid is Some ==> has_distinct_names(
            create_redirect_call(api_url, token, realm.name, uuid->0, uri).body->0,
        ),
        has_distinct_names(status_json(status)),
        has_distinct_names(status_patch_json(status)),
        has_distinct_names(condition_json(condition)),
{
    reveal_strlit("username");
    reveal_strlit("password");
    reveal_strlit("name");
    reveal_strlit("displayName");
    reveal_strlit("clientId");
    reveal_strlit("enabled");
    reveal_strlit("publicClient");
    reveal_strlit("clientType");
    reveal_strlit("protocol");
    reveal_strlit("directAccessGrantsEnabled");
    reveal_strlit("serviceAccountsEnabled");
    reveal_strlit("secret");
    reveal_strlit("description");
    reveal_strlit("permissions");
    reveal_strlit("ready");
    reveal_strlit("message");
    reveal_strlit("phase");
    reveal_strlit("conditions");
    reveal_strlit("conditionType");
    reveal_strlit("status");
    reveal_strlit("lastTransitionTime");
    reveal_strlit("reason");
    assert("username"@[0] != "password"@[0]);
    assert("clientId"@[0] != "protocol"@[0]);
    assert("description"@[0] != "permissions"@[0]);
    assert("ready"@[0] != "phase"@[0]);
    assert("status"@[0] != "reason"@[0]);
    let members = realm_body(realm.name, realm.display_name, realm.enabled)->Object_0;
    assert forall|i: int, j: int| 0 <= i < j < members.len() implies (#[trigger] members[i]).0 != (
    #[trigger] members[j]).0 by {
        assert(members[i].0.len() != members[j].0.len());
    }
    let members = client_members(client);
    assert(members.len() <= 9);
    assert forall|i: int, j: int| 0 <= i < j < members.len() implies (#[trigger] members[i]).0 != (
    #[trigger] members[j]).0 by {
        assert(members[i].0.len() != members[j].0.len() || (i == 0 && j == 5));
    }
    let members = status_json(status)->Object_0;
    assert(members.len() == 4);
    assert forall|i: int, j: int| 0 <= i < j < members.len() implies (#[trigger] members[i]).0 != (
    #[trigger] members[j]).0 by {
        assert(members[i].0.len() != members[j].0.len() || (i == 0 && j == 2));
    }
    let members = condition_json(condition)->Object_0;
    assert(members.len() == 5);
    assert forall|i: int, j: int| 0 <= i < j < members.len() implies (#[trigger] members[i]).0 != (
    #[trigger] members[j]).0 by {
        assert(members[i].0.len() != members[j].0.len() || (i == 1 && j == 3));
    }
}

// ---- Cleanup ----

/// Where these events lead from a turn of a removal, one after the other.
pub open spec fn cleanup_outcome(
    job: ImportJob,
    turn: CleanupTurnView,
    events: Seq<EventView>,
) -> CleanupTurnView
    decreases events.len(),
{
    match turn {
        CleanupTurnView::Waiting(stage) if events.len() > 0 => cleanup_outcome(
            job,
            cleanup_step(job, stage, events[0]),
            events.drop_first(),
        ),
        _ => turn,
    }
}

/// Whether each of these events answers the command that is to be carried out when it comes.
pub open spec fn cleanup_answered(
    job: ImportJob,
    turn: CleanupTurnView,
    events: Seq<EventView>,
) -> bool
    decreases events.len(),
{
    events.len() > 0 ==> match turn {
        CleanupTurnView::Waiting(stage) => answers(events[0], cleanup_command(job, stage))
            && cleanup_answered(job, cleanup_step(job, stage, events[0]), events.drop_first()),
        CleanupTurnView::Done(_) => false,
    }
}

/// The commands that these events answer.
pub open spec fn cleanup_performed(
    job: ImportJob,
    turn: CleanupTurnView,
    events: Seq<EventView>,
) -> Seq<CommandView>
    decreases events.len(),
{
    match turn {
        CleanupTurnView::Waiting(stage) if events.len() > 0 => seq![cleanup_command(job, stage)]
            + cleanup_performed(job, cleanup_step(job, stage, events[0]), events.drop_first()),
        _ => Seq::empty(),
    }
}

/// A removal before its first command.
pub open spec fn cleanup_at_start() -> CleanupTurnView {
    CleanupTurnView::Waiting(cleanup_start())
}

/// The commands of a whole removal, where it learns these facts: read the cluster and its
/// administrator's secret, log in, delete the realm.
pub open spec fn cleanup_plan(job: ImportJob, facts: ImportFacts) -> Seq<CommandView> {
    let session = facts.session();
    seq![
        CommandView::GetCluster(job.import.cluster, job.namespace),
        CommandView::GetSecret(secret_name_for(facts.cluster.name), job.namespace),
        CommandView::CallForJson(
            authenticate_call(session.api_url, facts.username, facts.password),
        ),
        CommandView::CallForText(
            delete_realm_call(session.api_url, session.token, job.import.realm.name),
        ),
    ]
}

/// What the first events of a removal say: the cluster, the credentials, the token.
pub open spec fn told(job: ImportJob, events: Seq<EventView>) -> ImportFacts {
    let nothing = no_facts(job);
    let (username, password) = if events.len() > 1 {
        match events[1] {
            EventView::Secret(Ok(secret)) => match credentials_result(secret) {
                Ok(credentials) => credentials,
                Err(_) => (nothing.username, nothing.password),
            },
            _ => (nothing.username, nothing.password),
        }
    } else {
        (nothing.username, nothing.password)
    };
    ImportFacts {
        cluster: if events.len() > 0 {
            match events[0] {
                EventView::Cluster(Ok(cluster)) => cluster,
                _ => nothing.cluster,
            }
        } else {
            nothing.cluster
        },
        username,
        password,
        token: if events.len() > 2 {
            match events[2] {
                EventView::Json(login) => match authenticate_result(login) {
                    Ok(token) => token,
                    Err(_) => nothing.token,
                },
                _ => nothing.token,
            }
        } else {
            nothing.token
        },
        uuids: nothing.uuids,
    }
}

/// A removal does nothing but what is planned, in the order of the plan, and ends with the fourth
/// answer at the latest. It succeeds exactly when that answer says that the realm is gone.
pub proof fn cleanup_follows_its_plan(job: ImportJob, events: Seq<EventView>)
    requires
        cleanup_answered(job, cleanup_at_start(), events),
    ensures
        events.len() <= 4,
        cleanup_performed(job, cleanup_at_start(), events).len() == events.len(),
        cleanup_performed(job, cleanup_at_start(), events).is_prefix_of(
            cleanup_plan(job, told(job, events)),
        ),
        events.len() == 4 ==> events[3] is Text && cleanup_outcome(job, cleanup_at_start(), events)
            == CleanupTurnView::Done(
            delete_realm_result(job.import.realm.name, events[3]->Text_0),
        ),
        events.len() < 4 ==> cleanup_outcome(job, cleanup_at_start(), events)
            != CleanupTurnView::Done(Ok::<(), ErrorView>(())),
{
    reveal_with_fuel(cleanup_answered, 6);
    reveal_with_fuel(cleanup_performed, 6);
    reveal_with_fuel(cleanup_outcome, 6);
    if events.len() > 1 {
        assert(events.drop_first()[0] == events[1]);
    }
    if events.len() > 2 {
        assert(events.drop_first().drop_first()[0] == events[2]);
    }
    if events.len() > 3 {
        assert(events.drop_first().drop_first().drop_first()[0] == events[3]);
    }
}

/// An import and the removal of what it imports get at the API by the same commands, and the realm
/// that the one creates is the one that the other deletes.
pub proof fn cleanup_deletes_what_import_creates(job: ImportJob, facts: ImportFacts)
    ensures
        job.plan(facts).take(3) == cleanup_plan(job, facts).take(3),
        ({
            let session = facts.session();
            let realm = job.import.realm;
            &&& job.plan(facts)[3] == CommandView::CallForText(
                create_realm_call(
                    session.api_url,
                    session.token,
                    realm.name,
                    realm.display_name,
                    realm.enabled,
                ),
            )
            &&& cleanup_plan(job, facts)[3] == CommandView::CallForText(
                delete_realm_call(session.api_url, session.token, realm.name),
            )
        }),
{
    assert(job.plan(facts).take(3) =~= cleanup_plan(job, facts).take(3));
}

/// A removal can be repeated: that the realm is not there counts as its removal.
pub proof fn cleanup_is_idempotent(
    job: ImportJob,
    session: SessionView,
    code: int,
    text: Seq<char>,
    text_when_gone: Seq<char>,
)
    requires
        is_success_code(code),
    ensures
        cleanup_step(
            job,
            CleanupStageView::Delete { session },
            EventView::Text(TextDeliveryView::Answered(404, text_when_gone)),
        ) == cleanup_step(
            job,
            CleanupStageView::Delete { session },
            EventView::Text(TextDeliveryView::Answered(code, text)),
        ),
{
}

/// Removing a realm twice is as good as once: after a removal that succeeded, another one whose
/// request is answered that the realm is not there succeeds too. Each of the two sends one login
/// and one request that deletes the realm, and nothing for single clients or roles.
pub proof fn deleting_twice_is_as_good_as_once(
    job: ImportJob,
    events: Seq<EventView>,
    later_events: Seq<EventView>,
    text: Seq<char>,
)
    requires
        cleanup_answered(job, cleanup_at_start(), events),
        cleanup_outcome(job, cleanup_at_start(), events) == CleanupTurnView::Done(
            Ok::<(), ErrorView>(()),
        ),
        cleanup_answered(job, cleanup_at_start(), later_events),
        later_events.len() == 4,
        later_events[3] == EventView::Text(TextDeliveryView::Answered(404, text)),
    ensures
        cleanup_outcome(job, cleanup_at_start(), later_events) == CleanupTurnView::Done(
            Ok::<(), ErrorView>(()),
        ),
        cleanup_performed(job, cleanup_at_start(), events) == cleanup_plan(job, told(job, events)),
        cleanup_performed(job, cleanup_at_start(), later_events) == cleanup_plan(
            job,
            told(job, later_events),
        ),
{
    cleanup_follows_its_plan(job, events);
    cleanup_follows_its_plan(job, later_events);
    assert(cleanup_performed(job, cleanup_at_start(), events) =~= cleanup_plan(
        job,
        told(job, events),
    ));
    assert(cleanup_performed(job, cleanup_at_start(), later_events) =~= cleanup_plan(
        job,
        told(job, later_events),
    ));
}

// ---- Specifications and reconciliation ----

/// What can be imported can be cleaned up again: a removal is refused only where the import is
/// refused for the same reason.
pub proof fn imports_can_be_cleaned_up(import: ImportView)
    ensures
        cleanup_refusal(import) is Some ==> import_refusal(import) == cleanup_refusal(import),
{
}

/// Applying a resource imports its realm and then writes the result to its status, whatever the
/// result is. Whether the status could be written does not matter: the reconciliation comes to
/// what the import came to.
pub proof fn apply_imports_and_reports(
    resource: ResourceView,
    result: Result<StatusView, FailureView>,
    patched: Result<(), ErrorView>,
)
    ensures
        ({
            let start = reconcile_start(FinalizerEvent::Apply);
            let reporting = ReconcileStageView::Reporting {
                status: reported_status(result),
                outcome: import_outcome(result),
            };
            &&& reconcile_command(resource, start) == ReconcileCommandView::Import(
                resource.import,
                resource.namespace,
            )
            &&& reconcile_step(start, ReconcileEventView::Imported(result))
                == ReconcileTurnView::Waiting(reporting)
            &&& reconcile_command(resource, reporting) == ReconcileCommandView::PatchStatus(
                resource.name,
                resource.namespace,
                status_patch_json(reported_status(result)),
            )
            &&& reconcile_step(reporting, ReconcileEventView::Patched(patched))
                == ReconcileTurnView::Done(import_outcome(result))
        }),
{
}

/// Cleaning up never blocks the deletion of a resource: whatever came of it, the reconciliation
/// succeeds, and nothing else is done.
pub proof fn cleanup_never_blocks_deletion(resource: ResourceView, result: Result<(), ErrorView>)
    ensures
        ({
            let start = reconcile_start(FinalizerEvent::Cleanup);
            &&& reconcile_command(resource, start) == ReconcileCommandView::Cleanup(
                resource.import,
                resource.namespace,
            )
            &&& reconcile_step(start, ReconcileEventView::CleanedUp(result))
                == ReconcileTurnView::Done(Ok::<Action, ErrorView>(Action::AwaitChange))
        }),
{
}

/// A status tells the truth: it is ready only where the import succeeded, its phase is `Error`
/// where the import failed, and an import that has come to its end is reported as ready.
pub proof fn statuses_tell_the_truth(
    result: Result<StatusView, FailureView>,
    failure: FailureView,
    import: ImportView,
    passed_over: Seq<Seq<char>>,
)
    ensures
        reported_status(result).ready ==> result is Ok && import_outcome(result) is Ok,
        reported_status(Err(failure)).phase == Some("Error"@),
        import_outcome(Err(failure)) == Err::<Action, ErrorView>(failure.error),
        reported_status(Ok(imported(import, passed_over))).ready,
        reported_status(Ok(imported(import, passed_over))).phase == Some("Ready"@),
{
}

} // verus!
