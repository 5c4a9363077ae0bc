//! What an import, a removal and a reconciliation do and come to, in terms of what they are given.
use crate::api::create_client_result;
use crate::cleanup_flow::{cleanup_step, CleanupStageView, CleanupTurnView};
use crate::connect::{CommandView, EventView, SessionView};
use crate::controller::{
    condition_json, import_outcome, reported_status, status_json, status_patch_json, Action,
    FailureView,
};
use crate::crds::{ConditionView, ImportStatusView};
use crate::entities::{ClientView, ImportView, RealmView, RoleView, StatusView};
use crate::error::ErrorView;
use crate::http::{JsonDeliveryView, TextDeliveryView};
use crate::import_flow::{
    imported, passed_over_note, ImportJob, ImportStageView, ImportTurnView, WorkView,
};
use crate::json::JsonView;
use crate::laws::{bodies_have_distinct_names, cleanup_plan, has_distinct_names};
use crate::plan::{
    answered, at_start, clients_left_out_are_named, has_failed, import_succeeds_by_its_whole_plan,
    outcome, run_learns_uuid, ImportFacts,
};
use crate::reconcile::{
    reconcile_command, reconcile_start, reconcile_step, FinalizerEvent, ReconcileCommandView,
    ReconcileEventView, ReconcileStageView, ReconcileTurnView, ResourceView,
};
use crate::reply_laws::{
    clusters_lead_to_their_secret, join_seven, joined, realms_are_deleted_by_success_or_absence,
};
use crate::request_laws::{
    allows_redirect, client_requests_tell_the_client, creates_client, creates_realm, creates_role,
    delete_requests_name_the_realm, deletes_realm, logins_send_their_credentials, logs_in,
    member_count, members_are_said, realm_requests_tell_the_realm, redirect_requests_tell_the_uri,
    role_requests_tell_the_role, says, says_text,
};
use crate::text::{decimal, mentions, trimming_drops_only_slashes};
use vstd::prelude::*;

verus! {

// ---- The plan of an import ----

/// The session of an import goes to the URL of the cluster that it has read, without slashes at its
/// end, with the token that it has got.
pub proof fn sessions_are_made_of_facts(facts: ImportFacts)
    ensures
        facts.session().token == facts.token,
        facts.session().api_url.is_prefix_of(facts.cluster.api_url),
        facts.session().api_url.len() > 0 ==> facts.session().api_url.last() != '/',
        forall|i: int|
            facts.session().api_url.len() <= i < facts.cluster.api_url.len()
                ==> facts.cluster.api_url[i] == '/',
{
    trimming_drops_only_slashes(facts.cluster.api_url);
}

/// A plan begins by reading the cluster, then the administrator's secret that is named after it,
/// both in the import's namespace. It goes on with a login and the creation of the realm.
pub proof fn plans_begin_with_the_realm(job: ImportJob, facts: ImportFacts)
    ensures
        ({
            let plan = job.plan(facts);
            &&& plan.len() >= 4
            &&& plan[0] == CommandView::GetCluster(job.import.cluster, job.namespace)
            &&& plan[1] == CommandView::GetSecret(
                joined(seq!["ferriskey-admin-"@, facts.cluster.name]),
                job.namespace,
            )
            &&& plan[2] matches CommandView::CallForJson(login) && logs_in(
                login,
                facts.session().api_url,
                facts.username,
                facts.password,
            )
            &&& plan[3] matches CommandView::CallForText(request) && creates_realm(
                request,
                facts.session(),
                job.import.realm,
            )
        }),
{
    clusters_lead_to_their_secret(
        job.import.cluster,
        job.namespace,
        facts.cluster,
        Seq::empty(),
    );
    logins_send_their_credentials(facts.session().api_url, facts.username, facts.password);
    realm_requests_tell_the_realm(facts.session(), job.import.realm);
}

/// After the realm a plan creates each role of the realm, in the order of the specification.
pub proof fn plans_create_each_realm_role(job: ImportJob, facts: ImportFacts, k: int)
    requires
        0 <= k < job.import.realm.realm_roles.len(),
    ensures
        4 + k < job.plan(facts).len(),
        job.plan(facts)[4 + k] matches CommandView::CallForText(request) && creates_role(
            request,
            facts.session(),
            job.import.realm.name,
            None,
            job.import.realm.realm_roles[k],
        ),
{
    let roles = job.roles_plan(facts.session(), None, job.import.realm.realm_roles);
    assert(job.plan(facts)[4 + k] == roles[k]);
    role_requests_tell_the_role(
        facts.session(),
        job.import.realm.name,
        None,
        job.import.realm.realm_roles[k],
    );
}

/// How many commands a client takes: one for itself, and one for each redirect URI and each role
/// where it gets a UUID.
pub open spec fn client_cost(client: ClientView, uuid: Option<Seq<char>>) -> int {
    if uuid is Some {
        1int + client.redirect_uris.len() + client.roles.len()
    } else {
        1
    }
}

/// How many commands the clients before this one take.
pub open spec fn cost_before(job: ImportJob, uuids: Seq<Option<Seq<char>>>, i: int) -> int
    decreases i,
{
    if i <= 0 {
        0
    } else {
        cost_before(job, uuids, i - 1) + client_cost(
            job.import.realm.clients[i - 1],
            uuids[i - 1],
        )
    }
}

/// The place of a client in a plan.
pub open spec fn client_place(job: ImportJob, facts: ImportFacts, i: int) -> int {
    4 + job.import.realm.realm_roles.len() + cost_before(job, facts.uuids, i)
}

proof fn clients_come_one_after_the_other(
    job: ImportJob,
    session: SessionView,
    uuids: Seq<Option<Seq<char>>>,
    i: int,
)
    requires
        0 <= i <= job.import.realm.clients.len(),
    ensures
        0 <= cost_before(job, uuids, i) <= job.clients_plan(session, uuids, 0).len(),
        job.clients_plan(session, uuids, 0).skip(cost_before(job, uuids, i)) == job.clients_plan(
            session,
            uuids,
            i,
        ),
    decreases i,
{
    let all = job.clients_plan(session, uuids, 0);
    if i == 0 {
        assert(all.skip(0) =~= all);
    } else {
        clients_come_one_after_the_other(job, session, uuids, i - 1);
        let before = cost_before(job, uuids, i - 1);
        let client = job.import.realm.clients[i - 1];
        let first = job.client_plan(session, client, uuids[i - 1]);
        let others = job.clients_plan(session, uuids, i);
        assert(all.skip(before) == first + others);
        assert(first.len() == client_cost(client, uuids[i - 1]));
        assert(all.skip(before).len() == all.len() - before);
        assert(all.skip(before + first.len()) =~= (first + others).skip(first.len() as int)) by {
            assert forall|k: int|
                0 <= k < all.len() - before - first.len() implies all.skip(before + first.len())[k]
                == (first + others).skip(first.len() as int)[k] by {
                assert(all.skip(before)[k + first.len()] == (first + others)[k + first.len()]);
            }
        }
        assert((first + others).skip(first.len() as int) =~= others);
    }
}

/// After the roles of the realm a plan creates each client, in the order of the specification, and
/// right after a client that gets a UUID each of its redirect URIs and then each of its roles,
/// under that UUID.
pub proof fn plans_create_each_client(job: ImportJob, facts: ImportFacts, i: int)
    requires
        0 <= i < job.import.realm.clients.len(),
    ensures
        ({
            let plan = job.plan(facts);
            let client = job.import.realm.clients[i];
            let at = client_place(job, facts, i);
            &&& 4 + job.import.realm.realm_roles.len() <= at < plan.len()
            &&& plan[at] matches CommandView::CallForJson(request) && creates_client(
                request,
                facts.session(),
                job.import.realm.name,
                client,
            )
            &&& facts.uuids[i] matches Some(uuid) ==> {
                &&& at + client.redirect_uris.len() + client.roles.len() < plan.len()
                &&& forall|m: int|
                    0 <= m < client.redirect_uris.len() ==> (#[trigger] plan[at + 1 + m]
                        matches CommandView::CallForText(request) && allows_redirect(
                        request,
                        facts.session(),
                        job.import.realm.name,
                        uuid,
                        client.redirect_uris[m],
                    ))
                &&& forall|r: int|
                    0 <= r < client.roles.len() ==> (#[trigger] plan[at + 1
                        + client.redirect_uris.len() + r] matches CommandView::CallForText(request)
                        && creates_role(
                        request,
                        facts.session(),
                        job.import.realm.name,
                        Some(uuid),
                        client.roles[r],
                    ))
            }
        }),
{
    let plan = job.plan(facts);
    let session = facts.session();
    let realm = job.import.realm.name;
    let client = job.import.realm.clients[i];
    let at = client_place(job, facts, i);
    let all = job.clients_plan(session, facts.uuids, 0);
    let before = cost_before(job, facts.uuids, i);
    let start = 4 + job.import.realm.realm_roles.len();
    let first = job.client_plan(session, client, facts.uuids[i]);
    clients_come_one_after_the_other(job, session, facts.uuids, i);
    assert(all.skip(before) == first + job.clients_plan(session, facts.uuids, i + 1));
    assert forall|k: int| 0 <= k < first.len() implies plan[at + k] == #[trigger] first[k] by {
        assert(plan[at + k] == all[before + k]);
        assert(all.skip(before)[k] == all[before + k]);
    }
    assert(all.skip(before).len() == all.len() - before);
    assert(plan.len() == start + all.len());
    assert(plan[at + 0] == first[0]);
    client_requests_tell_the_client(session, realm, client);
    if let Some(uuid) = facts.uuids[i] {
        let uris = client.redirect_uris.len() as int;
        assert forall|m: int| 0 <= m < uris implies (#[trigger] plan[at + 1 + m]
            matches CommandView::CallForText(request) && allows_redirect(
            request,
            session,
            realm,
            uuid,
            client.redirect_uris[m],
        )) by {
            assert(plan[at + (1 + m)] == first[1 + m]);
            redirect_requests_tell_the_uri(session, realm, uuid, client.redirect_uris[m]);
        }
        assert forall|r: int| 0 <= r < client.roles.len() implies (#[trigger] plan[at + 1
            + client.redirect_uris.len() + r] matches CommandView::CallForText(request)
            && creates_role(request, session, realm, Some(uuid), client.roles[r])) by {
            assert(plan[at + (1 + uris + r)] == first[1 + uris + r]);
            role_requests_tell_the_role(session, realm, Some(uuid), client.roles[r]);
        }
    }
}

/// A plan holds nothing besides: it ends after the last client.
pub proof fn plans_end_with_the_last_client(job: ImportJob, facts: ImportFacts)
    ensures
        job.plan(facts).len() == client_place(job, facts, job.import.realm.clients.len() as int),
{
    let n = job.import.realm.clients.len() as int;
    let all = job.clients_plan(facts.session(), facts.uuids, 0);
    clients_come_one_after_the_other(job, facts.session(), facts.uuids, n);
    assert(all.skip(cost_before(job, facts.uuids, n)).len() == all.len() - cost_before(
        job,
        facts.uuids,
        n,
    ));
}

/// A removal reads the cluster and its administrator's secret, logs in and deletes the realm, and
/// does nothing else.
pub proof fn removals_delete_the_realm(job: ImportJob, facts: ImportFacts)
    ensures
        ({
            let plan = cleanup_plan(job, facts);
            &&& plan.len() == 4
            &&& plan[0] == CommandView::GetCluster(job.import.cluster, job.namespace)
            &&& plan[1] == CommandView::GetSecret(
                joined(seq!["ferriskey-admin-"@, facts.cluster.name]),
                job.namespace,
            )
            &&& plan[2] matches CommandView::CallForJson(login) && logs_in(
                login,
                facts.session().api_url,
                facts.username,
                facts.password,
            )
            &&& plan[3] matches CommandView::CallForText(request) && deletes_realm(
                request,
                facts.session(),
                job.import.realm.name,
            )
        }),
{
    clusters_lead_to_their_secret(
        job.import.cluster,
        job.namespace,
        facts.cluster,
        Seq::empty(),
    );
    logins_send_their_credentials(facts.session().api_url, facts.username, facts.password);
    delete_requests_name_the_realm(facts.session(), job.import.realm.name);
}

// ---- What replies do to an import ----

/// The reply to the request that creates the realm decides: a code from 200 to 299 leads on in a
/// new realm, 409 leads on in one that was there, and anything else ends the import in failure.
pub proof fn the_realm_must_be_created_or_be_there(
    job: ImportJob,
    session: SessionView,
    delivery: TextDeliveryView,
)
    ensures
        ({
            let next = job.step(ImportStageView::Realm { session }, EventView::Text(delivery));
            let code = match delivery {
                TextDeliveryView::Answered(code, _) => code,
                TextDeliveryView::Failed(_) => 0,
            };
            let created = 200 <= code && code <= 299;
            let realm = job.import.realm;
            if created || code == 409 {
                if realm.realm_roles.len() > 0 {
                    next matches ImportTurnView::Waiting(
                        ImportStageView::RealmRole { work, index },
                    ) && index == 0 && work.session == session && work.realm_created == created
                        && work.passed_over.len() == 0
                } else if realm.clients.len() > 0 {
                    next matches ImportTurnView::Waiting(
                        ImportStageView::Client { work, index },
                    ) && index == 0 && work.session == session && work.realm_created == created
                        && work.passed_over.len() == 0
                } else {
                    next matches ImportTurnView::Done(Ok(status)) && status.ready
                }
            } else {
                has_failed(next)
            }
        }),
{
}

/// The reply to a request that creates a role decides: the import ends in failure exactly when the
/// code lies outside 200 to 299, but for 409 in a realm that was there already.
pub proof fn roles_must_be_created(
    job: ImportJob,
    stage: ImportStageView,
    delivery: TextDeliveryView,
)
    ensures
        ({
            let next = job.step(stage, EventView::Text(delivery));
            let code = match delivery {
                TextDeliveryView::Answered(code, _) => code,
                TextDeliveryView::Failed(_) => 0,
            };
            let created = 200 <= code && code <= 299;
            &&& stage matches ImportStageView::RealmRole { work, .. } ==> (has_failed(next)
                <==> !created && (code != 409 || work.realm_created))
            &&& stage matches ImportStageView::ClientRole { work, .. } ==> (has_failed(next)
                <==> !created && (code != 409 || work.realm_created))
        }),
{
}

/// The reply to a request that creates a client decides: the import ends in failure exactly when no
/// UUID came back, but for 409 in a realm that was there already. The parts of the client are
/// created under the UUID that came back.
pub proof fn clients_must_be_created(
    job: ImportJob,
    work: WorkView,
    index: int,
    delivery: JsonDeliveryView,
)
    ensures
        ({
            let stage = ImportStageView::Client { work, index };
            let next = job.step(stage, EventView::Json(delivery));
            let client = job.import.realm.clients[index];
            let result = create_client_result(job.import.realm.name, client.client_id, delivery);
            let conflict = delivery matches JsonDeliveryView::Answered(code, _) && code == 409;
            &&& has_failed(next) <==> result is Err && (!conflict || work.realm_created)
            &&& result matches Ok(uuid) ==> if client.redirect_uris.len() > 0 {
                next == ImportTurnView::Waiting(
                    ImportStageView::Redirect { work, client: index, uuid, index: 0 },
                )
            } else if client.roles.len() > 0 {
                next == ImportTurnView::Waiting(
                    ImportStageView::ClientRole { work, client: index, uuid, index: 0 },
                )
            } else {
                !has_failed(next)
            }
        }),
{
}

/// Only a redirect URI whose request could not be sent ends an import in failure.
pub proof fn redirects_must_be_sent(
    job: ImportJob,
    work: WorkView,
    client: int,
    uuid: Seq<char>,
    index: int,
    delivery: TextDeliveryView,
)
    ensures
        has_failed(
            job.step(
                ImportStageView::Redirect { work, client, uuid, index },
                EventView::Text(delivery),
            ),
        ) <==> delivery is Failed,
{
}

/// A removal ends with the reply to its request: in success where the code lies from 200 to 299 or
/// is 404, and else in failure.
pub proof fn removals_end_with_their_reply(
    job: ImportJob,
    session: SessionView,
    delivery: TextDeliveryView,
)
    ensures
        cleanup_step(job, CleanupStageView::Delete { session }, EventView::Text(delivery))
            matches CleanupTurnView::Done(result) && (result is Ok <==> (delivery
            matches TextDeliveryView::Answered(code, _) && (200 <= code && code <= 299 || code
            == 404))),
{
    realms_are_deleted_by_success_or_absence(job.import.realm.name, delivery);
}

// ---- The status of an import ----

/// The status of an import that has come to its end is ready, in phase `Ready`, and its message
/// tells the realm, the number of its clients and the number of its roles. It tells nothing more
/// where nothing was passed over.
pub proof fn statuses_count_what_was_imported(import: ImportView, passed_over: Seq<Seq<char>>)
    ensures
        ({
            let status = imported(import, passed_over);
            let told = joined(
                seq![
                    "Realm '"@,
                    import.realm.name,
                    "' imported successfully with "@,
                    decimal(import.realm.clients.len()),
                    " clients and "@,
                    decimal(import.realm.realm_roles.len()),
                    " realm roles"@,
                ],
            );
            &&& status.ready
            &&& status.phase == Some("Ready"@)
            &&& status.message matches Some(message) && told.is_prefix_of(message) && (
            passed_over.len() == 0 ==> message == told)
        }),
{
    let told = "Realm '"@ + import.realm.name + "' imported successfully with "@ + decimal(
        import.realm.clients.len(),
    ) + " clients and "@ + decimal(import.realm.realm_roles.len()) + " realm roles"@;
    join_seven(
        "Realm '"@,
        import.realm.name,
        "' imported successfully with "@,
        decimal(import.realm.clients.len()),
        " clients and "@,
        decimal(import.realm.realm_roles.len()),
        " realm roles"@,
    );
    let message = imported(import, passed_over).message->0;
    assert(message == told + passed_over_note(passed_over));
    if passed_over.len() == 0 {
        assert(message =~= told);
    }
}

/// Where an import succeeds although a client with redirect URIs or roles was answered 409, the
/// status names the client.
pub proof fn conflicting_clients_are_named(
    job: ImportJob,
    events: Seq<EventView>,
    at: int,
    work: WorkView,
    index: int,
    body: Result<Seq<u8>, Seq<char>>,
)
    requires
        answered(job, at_start(), events),
        outcome(job, at_start(), events) is Done,
        !has_failed(outcome(job, at_start(), events)),
        0 <= at < events.len(),
        outcome(job, at_start(), events.take(at)) == ImportTurnView::Waiting(
            ImportStageView::Client { work, index },
        ),
        0 <= index < job.import.realm.clients.len(),
        events[at] == EventView::Json(JsonDeliveryView::Answered(409, body)),
        job.import.realm.clients[index].redirect_uris.len() > 0
            || job.import.realm.clients[index].roles.len() > 0,
    ensures
        outcome(job, at_start(), events) matches ImportTurnView::Done(Ok(status)) && (
        status.message matches Some(message) && mentions(
            message,
            job.import.realm.clients[index].client_id,
        )),
{
    run_learns_uuid(
        job,
        at_start(),
        events,
        at,
        work,
        index,
        JsonDeliveryView::Answered(409, body),
        None,
    );
    clients_left_out_are_named(job, events, index);
    import_succeeds_by_its_whole_plan(job, events);
}

/// Only a client that got no UUID, and that has redirect URIs or roles, is named as passed over.
pub proof fn only_such_clients_are_named(
    job: ImportJob,
    uuids: Seq<Option<Seq<char>>>,
    from: int,
    k: int,
)
    requires
        0 <= from,
        0 <= k < job.passed_over(uuids, from).len(),
    ensures
        exists|i: int|
            {
                let client = #[trigger] job.import.realm.clients[i];
                &&& from <= i < job.import.realm.clients.len()
                &&& client.client_id == job.passed_over(uuids, from)[k]
                &&& uuids[i] is None
                &&& client.redirect_uris.len() > 0 || client.roles.len() > 0
            },
    decreases job.import.realm.clients.len() - from,
{
    let clients = job.import.realm.clients;
    let names = job.passed_over(uuids, from);
    let others = job.passed_over(uuids, from + 1);
    if names.len() == others.len() {
        only_such_clients_are_named(job, uuids, from + 1, k);
    } else if k == 0 {
        assert(clients[from].client_id == names[0]);
    } else {
        only_such_clients_are_named(job, uuids, from + 1, k - 1);
        assert(names[k] == others[k - 1]);
    }
}

// ---- The status of a resource ----

/// What is reported of an import that succeeded is its status. Of one that failed it is that it is
/// not ready, in phase `Error`, with the text of the error. A success is looked at again after five
/// minutes; a failure is handed on.
pub proof fn reports_tell_the_result(result: Result<StatusView, FailureView>)
    ensures
        reported_status(result).conditions is None,
        result matches Ok(status) ==> {
            &&& reported_status(result).ready == status.ready
            &&& reported_status(result).message == status.message
            &&& reported_status(result).phase == status.phase
            &&& import_outcome(result) == Ok::<Action, ErrorView>(Action::Requeue { seconds: 300 })
        },
        result matches Err(failure) ==> {
            &&& !reported_status(result).ready
            &&& reported_status(result).message == Some("Import error: "@ + failure.text)
            &&& reported_status(result).phase == Some("Error"@)
            &&& import_outcome(result) == Err::<Action, ErrorView>(failure.error)
        },
{
}

/// Whether JSON tells a condition.
pub open spec fn tells_condition(json: JsonView, condition: ConditionView) -> bool {
    &&& says(json, "conditionType"@, JsonView::Text(condition.condition_type))
    &&& says(json, "status"@, JsonView::Text(condition.status))
    &&& says(json, "lastTransitionTime"@, JsonView::Text(condition.last_transition_time))
    &&& says_text(json, "reason"@, condition.reason)
    &&& says_text(json, "message"@, condition.message)
    &&& member_count(json) == 5
}

/// Whether JSON tells a status: whether it is ready, its message, its phase, and its conditions in
/// their order.
pub open spec fn tells_status(json: JsonView, status: ImportStatusView) -> bool {
    &&& says(json, "ready"@, JsonView::Bool(status.ready))
    &&& says_text(json, "message"@, status.message)
    &&& says_text(json, "phase"@, status.phase)
    &&& match status.conditions {
        None => says(json, "conditions"@, JsonView::Null),
        Some(conditions) => exists|items: Seq<JsonView>|
            {
                &&& #[trigger] says(json, "conditions"@, JsonView::Array(items))
                &&& items.len() == conditions.len()
                &&& forall|i: int|
                    0 <= i < conditions.len() ==> tells_condition(
                        #[trigger] items[i],
                        conditions[i],
                    )
            },
    }
    &&& member_count(json) == 4
}

/// Whether a patch writes a status, and nothing else.
pub open spec fn writes_status(patch: JsonView, status: ImportStatusView) -> bool {
    &&& member_count(patch) == 1
    &&& exists|json: JsonView| #[trigger] says(patch, "status"@, json) && tells_status(json, status)
}

proof fn statuses_are_distinct(status: ImportStatusView, condition: ConditionView)
    ensures
        has_distinct_names(status_json(status)),
        has_distinct_names(status_patch_json(status)),
        has_distinct_names(condition_json(condition)),
{
    let none: Seq<char> = Seq::empty();
    bodies_have_distinct_names(
        none,
        none,
        none,
        none,
        RealmView {
            name: none,
            display_name: None,
            enabled: false,
            realm_roles: Seq::empty(),
            clients: Seq::empty(),
        },
        ClientView {
            client_id: none,
            name: None,
            enabled: false,
            public_client: false,
            secret: None,
            protocol: None,
            redirect_uris: Seq::empty(),
            client_type: None,
            direct_access_grants_enabled: false,
            service_accounts_enabled: false,
            roles: Seq::empty(),
        },
        None,
        RoleView { name: none, description: None, permissions: Seq::empty() },
        none,
        status,
        condition,
    );
}

proof fn conditions_are_told(condition: ConditionView, status: ImportStatusView)
    ensures
        tells_condition(condition_json(condition), condition),
{
    let json = condition_json(condition);
    statuses_are_distinct(status, condition);
    members_are_said(json, 0);
    members_are_said(json, 1);
    members_are_said(json, 2);
    members_are_said(json, 3);
    members_are_said(json, 4);
}

/// The patch of a status tells that status: under `status` stands whether it is ready, its message,
/// its phase and its conditions.
pub proof fn patches_tell_their_status(status: ImportStatusView)
    ensures
        writes_status(status_patch_json(status), status),
{
    let json = status_json(status);
    let patch = status_patch_json(status);
    let none: Seq<char> = Seq::empty();
    statuses_are_distinct(
        status,
        ConditionView {
            condition_type: none,
            status: none,
            last_transition_time: none,
            reason: None,
            message: None,
        },
    );
    members_are_said(json, 0);
    members_are_said(json, 1);
    members_are_said(json, 2);
    members_are_said(json, 3);
    members_are_said(patch, 0);
    if let Some(conditions) = status.conditions {
        let items = conditions.map_values(|c: ConditionView| condition_json(c));
        assert(says(json, "conditions"@, JsonView::Array(items)));
        assert forall|i: int| 0 <= i < conditions.len() implies tells_condition(
            #[trigger] items[i],
            conditions[i],
        ) by {
            conditions_are_told(conditions[i], status);
        }
    }
    assert(says(patch, "status"@, json) && tells_status(json, status));
}

/// After an import that failed, the reconciliation writes to the resource's status that it is not
/// ready, in phase `Error`, with the text of the error, and then comes to that error.
pub proof fn failed_imports_are_written_as_errors(
    resource: ResourceView,
    failure: FailureView,
    patched: Result<(), ErrorView>,
)
    ensures
        reconcile_step(
            reconcile_start(FinalizerEvent::Apply),
            ReconcileEventView::Imported(Err(failure)),
        ) matches ReconcileTurnView::Waiting(stage) && {
            &&& reconcile_command(resource, stage) matches ReconcileCommandView::PatchStatus(
                name,
                namespace,
                patch,
            ) && name == resource.name && namespace == resource.namespace && writes_status(
                patch,
                ImportStatusView {
                    ready: false,
                    message: Some("Import error: "@ + failure.text),
                    phase: Some("Error"@),
                    conditions: None,
                },
            )
            &&& reconcile_step(stage, ReconcileEventView::Patched(patched))
                == ReconcileTurnView::Done(Err::<Action, ErrorView>(failure.error))
        },
{
    patches_tell_their_status(reported_status(Err(failure)));
}

/// After an import that succeeded, the reconciliation writes its status to the resource, and then
/// comes to another look after five minutes.
pub proof fn successful_imports_are_written_as_they_are(
    resource: ResourceView,
    status: StatusView,
    patched: Result<(), ErrorView>,
)
    ensures
        reconcile_step(
            reconcile_start(FinalizerEvent::Apply),
            ReconcileEventView::Imported(Ok(status)),
        ) matches ReconcileTurnView::Waiting(stage) && {
            &&& reconcile_command(resource, stage) matches ReconcileCommandView::PatchStatus(
                name,
                namespace,
                patch,
            ) && name == resource.name && namespace == resource.namespace && writes_status(
                patch,
                ImportStatusView {
                    ready: status.ready,
                    message: status.message,
                    phase: status.phase,
                    conditions: None,
                },
            )
            &&& reconcile_step(stage, ReconcileEventView::Patched(patched))
                == ReconcileTurnView::Done(
                Ok::<Action, ErrorView>(Action::Requeue { seconds: 300 }),
            )
        },
{
    patches_tell_their_status(reported_status(Ok(status)));
}

/// A reconciliation does not move by an event that answers nothing.
pub proof fn reconciliations_move_by_answers_only(
    stage: ReconcileStageView,
    event: ReconcileEventView,
)
    requires
        stage is Importing ==> !(event is Imported),
        stage is CleaningUp ==> !(event is CleanedUp),
        stage is Reporting ==> !(event is Patched),
    ensures
        reconcile_step(stage, event) == ReconcileTurnView::Waiting(stage),
{
}

} // verus!
