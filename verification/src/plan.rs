//! What an import does from its first command to its last, and the laws of its course.
use crate::api::{
    authenticate_call, authenticate_result, create_client_call, create_client_result,
    create_realm_call, create_redirect_call, create_role_call,
};
use crate::connect::{
    answers, secret_name_for, CommandView, ConnectStageView, EventView, SessionView,
};
use crate::credentials::credentials_result;
use crate::crds::ClusterView;
use crate::entities::{ClientView, ImportView, RoleView};
use crate::error::ErrorView;
use crate::http::{is_conflict_code, is_success_code, JsonDeliveryView, TextDeliveryView};
use crate::import_flow::{
    has_parts, import_start, imported, quoted_names, ImportJob, ImportStageView, ImportTurnView,
    WorkView,
};
use crate::text::{
    longer_text_mentions_as_much, mentions, middle_is_mentioned, without_trailing_slashes,
};
use vstd::prelude::*;

verus! {

// ---- Runs ----

/// Where a turn stands after one more event. What is done stays as it is.
pub open spec fn next_turn(
    job: ImportJob,
    turn: ImportTurnView,
    event: EventView,
) -> ImportTurnView {
    match turn {
        ImportTurnView::Waiting(stage) => job.step(stage, event),
        ImportTurnView::Done(_) => turn,
    }
}

/// Where these events lead from a turn, one after the other.
pub open spec fn outcome(
    job: ImportJob,
    turn: ImportTurnView,
    events: Seq<EventView>,
) -> ImportTurnView
    decreases events.len(),
{
    if events.len() == 0 {
        turn
    } else {
        outcome(job, next_turn(job, turn, events[0]), events.drop_first())
    }
}

/// Whether each of these events answers the command that is to be carried out when it comes.
pub open spec fn answered(job: ImportJob, turn: ImportTurnView, events: Seq<EventView>) -> bool
    decreases events.len(),
{
    events.len() > 0 ==> match turn {
        ImportTurnView::Waiting(stage) => answers(events[0], job.command(stage)) && answered(
            job,
            job.step(stage, events[0]),
            events.drop_first(),
        ),
        ImportTurnView::Done(_) => false,
    }
}

/// The commands that these events answer.
pub open spec fn performed(job: ImportJob, turn: ImportTurnView, events: Seq<EventView>) -> Seq<
    CommandView,
>
    decreases events.len(),
{
    match turn {
        ImportTurnView::Waiting(stage) if events.len() > 0 => seq![job.command(stage)] + performed(
            job,
            job.step(stage, events[0]),
            events.drop_first(),
        ),
        _ => Seq::empty(),
    }
}

/// An import before its first command.
pub open spec fn at_start() -> ImportTurnView {
    ImportTurnView::Waiting(import_start())
}

// ---- What an import learns ----

/// What an import learns from outside: the cluster, the administrator's credentials, the token of
/// its login, and the UUID of each client that it creates.
pub struct ImportFacts {
    pub cluster: ClusterView,
    pub username: Seq<char>,
    pub password: Seq<char>,
    pub token: Seq<char>,
    pub uuids: Seq<Option<Seq<char>>>,
}

impl ImportFacts {
    /// The access to the cluster's API.
    pub open spec fn session(self) -> SessionView {
        SessionView {
            api_url: without_trailing_slashes(self.cluster.api_url),
            token: self.token,
        }
    }
}

/// The facts of an import that has learned nothing.
pub open spec fn no_facts(job: ImportJob) -> ImportFacts {
    ImportFacts {
        cluster: ClusterView { name: Seq::empty(), api_url: Seq::empty() },
        username: Seq::empty(),
        password: Seq::empty(),
        token: Seq::empty(),
        uuids: Seq::new(job.import.realm.clients.len(), |i: int| None),
    }
}

/// `facts`, with what an event at a stage teaches.
pub open spec fn learn(
    job: ImportJob,
    stage: ImportStageView,
    event: EventView,
    facts: ImportFacts,
) -> ImportFacts {
    match (stage, event) {
        (
            ImportStageView::Connect(ConnectStageView::Cluster),
            EventView::Cluster(Ok(cluster)),
        ) => ImportFacts { cluster, ..facts },
        (
            ImportStageView::Connect(ConnectStageView::Secret { .. }),
            EventView::Secret(Ok(secret)),
        ) => match credentials_result(secret) {
            Ok((username, password)) => ImportFacts { username, password, ..facts },
            Err(_) => facts,
        },
        (ImportStageView::Connect(ConnectStageView::Login { .. }), EventView::Json(delivery)) => {
            match authenticate_result(delivery) {
                Ok(token) => ImportFacts { token, ..facts },
                Err(_) => facts,
            }
        },
        (ImportStageView::Client { index, .. }, EventView::Json(delivery)) => {
            let realm = job.import.realm;
            match create_client_result(realm.name, realm.clients[index].client_id, delivery) {
                Ok(uuid) => ImportFacts { uuids: facts.uuids.update(index, Some(uuid)), ..facts },
                Err(_) => ImportFacts { uuids: facts.uuids.update(index, None), ..facts },
            }
        },
        _ => facts,
    }
}

/// What these events teach an import that stands at a turn.
pub open spec fn learned(
    job: ImportJob,
    turn: ImportTurnView,
    events: Seq<EventView>,
) -> ImportFacts
    decreases events.len(),
{
    match turn {
        ImportTurnView::Waiting(stage) if events.len() > 0 => learn(
            job,
            stage,
            events[0],
            learned(job, job.step(stage, events[0]), events.drop_first()),
        ),
        _ => no_facts(job),
    }
}

// ---- The plan ----

impl ImportJob {
    /// The commands that create these roles, of the client with this UUID or of the realm.
    pub open spec fn roles_plan(
        self,
        session: SessionView,
        uuid: Option<Seq<char>>,
        roles: Seq<RoleView>,
    ) -> Seq<CommandView> {
        roles.map_values(
            |role: RoleView|
                CommandView::CallForText(
                    create_role_call(
                        session.api_url,
                        session.token,
                        self.import.realm.name,
                        uuid,
                        role,
                    ),
                ),
        )
    }

    /// The commands that allow the client with this UUID to redirect to these URIs.
    pub open spec fn redirects_plan(
        self,
        session: SessionView,
        uuid: Seq<char>,
        uris: Seq<Seq<char>>,
    ) -> Seq<CommandView> {
        uris.map_values(
            |uri: Seq<char>|
                CommandView::CallForText(
                    create_redirect_call(
                        session.api_url,
                        session.token,
                        self.import.realm.name,
                        uuid,
                        uri,
                    ),
                ),
        )
    }

    /// The commands that create a client, which gets this UUID: the client itself, its redirect
    /// URIs, its roles. Of a client that gets none, being there already, only the first.
    pub open spec fn client_plan(
        self,
        session: SessionView,
        client: ClientView,
        uuid: Option<Seq<char>>,
    ) -> Seq<CommandView> {
        seq![
            CommandView::CallForJson(
                create_client_call(
                    session.api_url,
                    session.token,
                    self.import.realm.name,
                    client,
                ),
            ),
        ] + (match uuid {
            Some(id) => self.redirects_plan(session, id, client.redirect_uris) + self.roles_plan(
                session,
                uuid,
                client.roles,
            ),
            None => Seq::empty(),
        })
    }

    /// The commands that create the clients from this index on, which get these UUIDs.
    pub open spec fn clients_plan(
        self,
        session: SessionView,
        uuids: Seq<Option<Seq<char>>>,
        from: int,
    ) -> Seq<CommandView>
        decreases self.import.realm.clients.len() - from,
    {
        let clients = self.import.realm.clients;
        if 0 <= from < clients.len() {
            self.client_plan(session, clients[from], uuids[from]) + self.clients_plan(
                session,
                uuids,
                from + 1,
            )
        } else {
            Seq::empty()
        }
    }

    /// The commands of the whole import, where it learns these facts: read the cluster and its
    /// administrator's secret, log in, create the realm, its roles, its clients.
    pub open spec fn plan(self, facts: ImportFacts) -> Seq<CommandView> {
        let realm = self.import.realm;
        let session = facts.session();
        seq![
            CommandView::GetCluster(self.import.cluster, self.namespace),
            CommandView::GetSecret(secret_name_for(facts.cluster.name), self.namespace),
            CommandView::CallForJson(
                authenticate_call(session.api_url, facts.username, facts.password),
            ),
            CommandView::CallForText(
                create_realm_call(
                    session.api_url,
                    session.token,
                    realm.name,
                    realm.display_name,
                    realm.enabled,
                ),
            ),
        ] + (self.roles_plan(session, None, realm.realm_roles) + self.clients_plan(
            session,
            facts.uuids,
            0,
        ))
    }

    /// The IDs of the clients from this index on that get no UUID, being there already, though they
    /// have redirect URIs or roles.
    pub open spec fn passed_over(self, uuids: Seq<Option<Seq<char>>>, from: int) -> Seq<Seq<char>>
        decreases self.import.realm.clients.len() - from,
    {
        let clients = self.import.realm.clients;
        if 0 <= from < clients.len() {
            let others = self.passed_over(uuids, from + 1);
            if uuids[from] is None && has_parts(clients[from]) {
                seq![clients[from].client_id] + others
            } else {
                others
            }
        } else {
            Seq::empty()
        }
    }

    /// The number of commands that create the clients from this index on, where none of them is
    /// there already.
    pub open spec fn clients_effort(self, from: int) -> nat
        decreases self.import.realm.clients.len() - from,
    {
        let clients = self.import.realm.clients;
        if 0 <= from < clients.len() {
            1 + clients[from].redirect_uris.len() + clients[from].roles.len() + self.clients_effort(
                from + 1,
            )
        } else {
            0
        }
    }

    /// The number of commands of the whole import, where no client is there already.
    pub open spec fn effort(self) -> nat {
        4 + self.import.realm.realm_roles.len() + self.clients_effort(0)
    }

    // ---- The rest of the plan ----

    spec fn rest_from_client(self, session: SessionView, facts: ImportFacts, index: int) -> Seq<
        CommandView,
    > {
        self.clients_plan(session, facts.uuids, index)
    }

    spec fn rest_from_realm_role(
        self,
        session: SessionView,
        facts: ImportFacts,
        index: int,
    ) -> Seq<CommandView> {
        self.roles_plan(session, None, self.import.realm.realm_roles.skip(index))
            + self.rest_from_client(session, facts, 0)
    }

    spec fn rest_from_client_role(
        self,
        session: SessionView,
        facts: ImportFacts,
        client: int,
        uuid: Seq<char>,
        index: int,
    ) -> Seq<CommandView> {
        self.roles_plan(
            session,
            Some(uuid),
            self.import.realm.clients[client].roles.skip(index),
        ) + self.rest_from_client(session, facts, client + 1)
    }

    spec fn rest_from_redirect(
        self,
        session: SessionView,
        facts: ImportFacts,
        client: int,
        uuid: Seq<char>,
        index: int,
    ) -> Seq<CommandView> {
        self.redirects_plan(
            session,
            uuid,
            self.import.realm.clients[client].redirect_uris.skip(index),
        ) + self.rest_from_client_role(session, facts, client, uuid, 0)
    }

    spec fn rest_from_realm(self, session: SessionView, facts: ImportFacts) -> Seq<CommandView> {
        seq![self.command(ImportStageView::Realm { session })] + self.rest_from_realm_role(
            session,
            facts,
            0,
        )
    }

    spec fn rest_from_login(
        self,
        api_url: Seq<char>,
        username: Seq<char>,
        password: Seq<char>,
        facts: ImportFacts,
    ) -> Seq<CommandView> {
        seq![
            CommandView::CallForJson(authenticate_call(api_url, username, password)),
        ] + self.rest_from_realm(SessionView { api_url, token: facts.token }, facts)
    }

    spec fn rest_from_secret(
        self,
        api_url: Seq<char>,
        secret_name: Seq<char>,
        facts: ImportFacts,
    ) -> Seq<CommandView> {
        seq![CommandView::GetSecret(secret_name, self.namespace)] + self.rest_from_login(
            api_url,
            facts.username,
            facts.password,
            facts,
        )
    }

    /// The commands that are left at a turn, where the import learns these facts.
    spec fn rest(self, turn: ImportTurnView, facts: ImportFacts) -> Seq<CommandView> {
        match turn {
            ImportTurnView::Done(_) => Seq::empty(),
            ImportTurnView::Waiting(stage) => match stage {
                ImportStageView::Connect(ConnectStageView::Cluster) => seq![
                    CommandView::GetCluster(self.import.cluster, self.namespace),
                ] + self.rest_from_secret(
                    without_trailing_slashes(facts.cluster.api_url),
                    secret_name_for(facts.cluster.name),
                    facts,
                ),
                ImportStageView::Connect(ConnectStageView::Secret { api_url, secret_name }) => {
                    self.rest_from_secret(api_url, secret_name, facts)
                },
                ImportStageView::Connect(
                    ConnectStageView::Login { api_url, username, password },
                ) => self.rest_from_login(api_url, username, password, facts),
                ImportStageView::Realm { session } => self.rest_from_realm(session, facts),
                ImportStageView::RealmRole { work, index } => self.rest_from_realm_role(
                    work.session,
                    facts,
                    index,
                ),
                ImportStageView::Client { work, index } => self.rest_from_client(
                    work.session,
                    facts,
                    index,
                ),
                ImportStageView::Redirect { work, client, uuid, index } => {
                    self.rest_from_redirect(work.session, facts, client, uuid, index)
                },
                ImportStageView::ClientRole { work, client, uuid, index } => {
                    self.rest_from_client_role(work.session, facts, client, uuid, index)
                },
            },
        }
    }
}

/// Whether what a turn counts is there.
pub open spec fn has_turn(job: ImportJob, turn: ImportTurnView) -> bool {
    match turn {
        ImportTurnView::Waiting(stage) => job.has_stage(stage),
        ImportTurnView::Done(_) => true,
    }
}

/// Whether a turn is a failure.
pub open spec fn has_failed(turn: ImportTurnView) -> bool {
    turn matches ImportTurnView::Done(Err(_))
}

/// An import that counts what is there goes on to count what is there.
pub proof fn steps_count_what_is_there(job: ImportJob, stage: ImportStageView, event: EventView)
    requires
        job.has_stage(stage),
    ensures
        has_turn(job, job.step(stage, event)),
{
}

/// The plan for the clients from an index on reads no UUID before that index.
proof fn clients_plan_reads_later_uuids(
    job: ImportJob,
    session: SessionView,
    uuids: Seq<Option<Seq<char>>>,
    from: int,
    index: int,
    uuid: Option<Seq<char>>,
)
    requires
        0 <= index < from,
        uuids.len() == job.import.realm.clients.len(),
    ensures
        job.clients_plan(session, uuids.update(index, uuid), from) == job.clients_plan(
            session,
            uuids,
            from,
        ),
    decreases job.import.realm.clients.len() - from,
{
    if from < job.import.realm.clients.len() {
        clients_plan_reads_later_uuids(job, session, uuids, from + 1, index, uuid);
        if index < uuids.len() {
            assert(uuids.update(index, uuid)[from] == uuids[from]);
        }
    }
}

/// Going on to a client leaves the plan from that client on.
proof fn going_to_client(job: ImportJob, work: WorkView, facts: ImportFacts, index: int)
    requires
        0 <= index,
    ensures
        job.rest(job.to_client(work, index), facts) == job.rest_from_client(
            work.session,
            facts,
            index,
        ),
{
}

/// Going on to a role of the realm leaves the plan from that role on.
proof fn going_to_realm_role(job: ImportJob, work: WorkView, facts: ImportFacts, index: int)
    requires
        0 <= index <= job.import.realm.realm_roles.len(),
    ensures
        job.rest(job.to_realm_role(work, index), facts) == job.rest_from_realm_role(
            work.session,
            facts,
            index,
        ),
{
    let roles = job.import.realm.realm_roles;
    if index == roles.len() {
        going_to_client(job, work, facts, 0);
        assert(job.rest_from_realm_role(work.session, facts, index) =~= job.rest_from_client(
            work.session,
            facts,
            0,
        ));
    }
}

/// Going on to a role of a client leaves the plan from that role on.
proof fn going_to_client_role(
    job: ImportJob,
    work: WorkView,
    facts: ImportFacts,
    client: int,
    uuid: Seq<char>,
    index: int,
)
    requires
        0 <= client < job.import.realm.clients.len(),
        0 <= index <= job.import.realm.clients[client].roles.len(),
    ensures
        job.rest(job.to_client_role(work, client, uuid, index), facts)
            == job.rest_from_client_role(work.session, facts, client, uuid, index),
{
    if index == job.import.realm.clients[client].roles.len() {
        going_to_client(job, work, facts, client + 1);
        assert(job.rest_from_client_role(work.session, facts, client, uuid, index)
            =~= job.rest_from_client(work.session, facts, client + 1));
    }
}

/// Going on to a redirect URI leaves the plan from that URI on.
proof fn going_to_redirect(
    job: ImportJob,
    work: WorkView,
    facts: ImportFacts,
    client: int,
    uuid: Seq<char>,
    index: int,
)
    requires
        0 <= client < job.import.realm.clients.len(),
        0 <= index <= job.import.realm.clients[client].redirect_uris.len(),
    ensures
        job.rest(job.to_redirect(work, client, uuid, index), facts) == job.rest_from_redirect(
            work.session,
            facts,
            client,
            uuid,
            index,
        ),
{
    if index == job.import.realm.clients[client].redirect_uris.len() {
        going_to_client_role(job, work, facts, client, uuid, 0);
        assert(job.rest_from_redirect(work.session, facts, client, uuid, index)
            =~= job.rest_from_client_role(work.session, facts, client, uuid, 0));
    }
}

/// The command of a stage is the first that is left there, and an answer that does not end the
/// import in failure leaves the others.
proof fn answer_takes_one_command(
    job: ImportJob,
    stage: ImportStageView,
    event: EventView,
    facts: ImportFacts,
)
    requires
        job.has_stage(stage),
        answers(event, job.command(stage)),
        facts.uuids.len() == job.import.realm.clients.len(),
    ensures
        ({
            let turn = job.step(stage, event);
            let left = job.rest(
                ImportTurnView::Waiting(stage),
                learn(job, stage, event, facts),
            );
            &&& left.len() > 0
            &&& left[0] == job.command(stage)
            &&& !has_failed(turn) ==> left == seq![job.command(stage)] + job.rest(turn, facts)
        }),
{
    let realm = job.import.realm;
    let turn = job.step(stage, event);
    let known = learn(job, stage, event, facts);
    let left = job.rest(ImportTurnView::Waiting(stage), known);
    match stage {
        ImportStageView::Connect(_) => {},
        ImportStageView::Realm { session } => {
            going_to_realm_role(job, WorkView::begin(session, true), facts, 0);
            going_to_realm_role(job, WorkView::begin(session, false), facts, 0);
        },
        ImportStageView::RealmRole { work, index } => {
            going_to_realm_role(job, work, facts, index + 1);
            assert(left =~= seq![job.command(stage)] + job.rest_from_realm_role(
                work.session,
                facts,
                index + 1,
            ));
        },
        ImportStageView::Client { work, index } => {
            let uuid = known.uuids[index];
            assert(left == job.client_plan(work.session, realm.clients[index], uuid)
                + job.clients_plan(work.session, known.uuids, index + 1));
            if !has_failed(turn) {
                clients_plan_reads_later_uuids(
                    job,
                    work.session,
                    facts.uuids,
                    index + 1,
                    index,
                    uuid,
                );
                if let Some(id) = uuid {
                    going_to_redirect(job, work, facts, index, id, 0);
                    assert(realm.clients[index].redirect_uris.skip(0)
                        =~= realm.clients[index].redirect_uris);
                    assert(realm.clients[index].roles.skip(0) =~= realm.clients[index].roles);
                    assert(left =~= seq![job.command(stage)] + job.rest_from_redirect(
                        work.session,
                        facts,
                        index,
                        id,
                        0,
                    ));
                } else {
                    going_to_client(job, work.passing(realm.clients[index]), facts, index + 1);
                    assert(left =~= seq![job.command(stage)] + job.rest_from_client(
                        work.session,
                        facts,
                        index + 1,
                    ));
                }
            }
        },
        ImportStageView::Redirect { work, client, uuid, index } => {
            going_to_redirect(job, work, facts, client, uuid, index + 1);
            assert(left =~= seq![job.command(stage)] + job.rest_from_redirect(
                work.session,
                facts,
                client,
                uuid,
                index + 1,
            ));
        },
        ImportStageView::ClientRole { work, client, uuid, index } => {
            going_to_client_role(job, work, facts, client, uuid, index + 1);
            assert(left =~= seq![job.command(stage)] + job.rest_from_client_role(
                work.session,
                facts,
                client,
                uuid,
                index + 1,
            ));
        },
    }
}

/// What an import learns has room for each client.
proof fn facts_cover_clients(job: ImportJob, turn: ImportTurnView, events: Seq<EventView>)
    requires
        has_turn(job, turn),
    ensures
        learned(job, turn, events).uuids.len() == job.import.realm.clients.len(),
    decreases events.len(),
{
    if events.len() > 0 && turn is Waiting {
        steps_count_what_is_there(job, turn->Waiting_0, events[0]);
        facts_cover_clients(job, job.step(turn->Waiting_0, events[0]), events.drop_first());
    }
}

/// A run takes one command for each event from what is left, and what it does not take is left at
/// its outcome.
proof fn run_takes_its_commands(job: ImportJob, turn: ImportTurnView, events: Seq<EventView>)
    requires
        has_turn(job, turn),
        answered(job, turn, events),
    ensures
        ({
            let left = job.rest(turn, learned(job, turn, events));
            let end = outcome(job, turn, events);
            &&& has_turn(job, end)
            &&& performed(job, turn, events).len() == events.len()
            &&& performed(job, turn, events).is_prefix_of(left)
            &&& !has_failed(end) ==> left == performed(job, turn, events) + job.rest(
                end,
                no_facts(job),
            )
        }),
    decreases events.len(),
{
    let left = job.rest(turn, learned(job, turn, events));
    if events.len() == 0 {
        assert(left =~= performed(job, turn, events) + job.rest(turn, no_facts(job)));
    } else {
        let stage = turn->Waiting_0;
        let next = job.step(stage, events[0]);
        let others = events.drop_first();
        let facts = learned(job, next, others);
        steps_count_what_is_there(job, stage, events[0]);
        facts_cover_clients(job, next, others);
        answer_takes_one_command(job, stage, events[0], facts);
        run_takes_its_commands(job, next, others);
        if has_failed(next) {
            assert(others.len() == 0);
            assert(performed(job, turn, events) =~= seq![job.command(stage)]);
        } else {
            let end = outcome(job, turn, events);
            assert(performed(job, turn, events).is_prefix_of(left));
            if !has_failed(end) {
                assert(left =~= performed(job, turn, events) + job.rest(end, no_facts(job)));
            }
        }
    }
}

/// What is left at the start is the plan.
proof fn start_has_whole_plan(job: ImportJob, facts: ImportFacts)
    ensures
        job.rest(at_start(), facts) == job.plan(facts),
{
    assert(job.import.realm.realm_roles.skip(0) =~= job.import.realm.realm_roles);
    assert(job.rest(at_start(), facts) =~= job.plan(facts));
}

/// How many clients an import has dealt with.
spec fn clients_seen(job: ImportJob, turn: ImportTurnView) -> int {
    match turn {
        ImportTurnView::Done(_) => job.import.realm.clients.len() as int,
        ImportTurnView::Waiting(stage) => match stage {
            ImportStageView::Client { index, .. } => index,
            ImportStageView::Redirect { client, .. } => client + 1,
            ImportStageView::ClientRole { client, .. } => client + 1,
            _ => 0,
        },
    }
}

/// The work of an import, once the realm is there.
pub open spec fn work_at(stage: ImportStageView) -> Option<WorkView> {
    match stage {
        ImportStageView::Connect(_) => None,
        ImportStageView::Realm { .. } => None,
        ImportStageView::RealmRole { work, .. } => Some(work),
        ImportStageView::Client { work, .. } => Some(work),
        ImportStageView::Redirect { work, .. } => Some(work),
        ImportStageView::ClientRole { work, .. } => Some(work),
    }
}

/// The clients that an import under way has passed over.
spec fn passed_so_far(turn: ImportTurnView) -> Seq<Seq<char>> {
    match turn {
        ImportTurnView::Waiting(stage) => match work_at(stage) {
            Some(work) => work.passed_over,
            None => Seq::empty(),
        },
        ImportTurnView::Done(_) => Seq::empty(),
    }
}

/// Which clients from an index on are passed over depends on no UUID before that index.
proof fn passed_over_reads_later_uuids(
    job: ImportJob,
    uuids: Seq<Option<Seq<char>>>,
    from: int,
    index: int,
    uuid: Option<Seq<char>>,
)
    requires
        0 <= index < from,
        uuids.len() == job.import.realm.clients.len(),
    ensures
        job.passed_over(uuids.update(index, uuid), from) == job.passed_over(uuids, from),
    decreases job.import.realm.clients.len() - from,
{
    if from < job.import.realm.clients.len() {
        passed_over_reads_later_uuids(job, uuids, from + 1, index, uuid);
        assert(uuids.update(index, uuid)[from] == uuids[from]);
    }
}

/// A run that succeeds reports the clients that it had passed over and those that it passes over.
proof fn run_reports_what_it_passed_over(
    job: ImportJob,
    turn: ImportTurnView,
    events: Seq<EventView>,
)
    requires
        has_turn(job, turn),
        turn is Waiting,
        answered(job, turn, events),
        outcome(job, turn, events) is Done,
        !has_failed(outcome(job, turn, events)),
    ensures
        outcome(job, turn, events) == ImportTurnView::Done(
            Ok(
                imported(
                    job.import,
                    passed_so_far(turn) + job.passed_over(
                        learned(job, turn, events).uuids,
                        clients_seen(job, turn),
                    ),
                ),
            ),
        ),
    decreases events.len(),
{
    let clients = job.import.realm.clients;
    let stage = turn->Waiting_0;
    let next = job.step(stage, events[0]);
    let others = events.drop_first();
    let facts = learned(job, next, others);
    let known = learned(job, turn, events);
    let seen = clients_seen(job, turn);
    let all = passed_so_far(turn) + job.passed_over(known.uuids, seen);
    steps_count_what_is_there(job, stage, events[0]);
    facts_cover_clients(job, next, others);
    if let ImportStageView::Client { work, index } = stage {
        passed_over_reads_later_uuids(job, facts.uuids, index + 1, index, known.uuids[index]);
        let after = if known.uuids[index] is None {
            work.passing(clients[index])
        } else {
            work
        };
        assert(all =~= after.passed_over + job.passed_over(facts.uuids, index + 1));
    }
    if next is Waiting {
        run_reports_what_it_passed_over(job, next, others);
    } else {
        assert(answered(job, next, others));
        assert(others.len() == 0);
        match stage {
            ImportStageView::Client { work, index } => {
                let after = if known.uuids[index] is None {
                    work.passing(clients[index])
                } else {
                    work
                };
                assert(all =~= after.passed_over);
            },
            _ => {
                assert(all =~= passed_so_far(turn));
            },
        }
    }
}

// ---- Laws ----

/// An import does nothing but what is planned, in the order of the plan: the commands of a run are
/// the first commands of its plan, one for each event.
pub proof fn import_follows_its_plan(job: ImportJob, events: Seq<EventView>)
    requires
        answered(job, at_start(), events),
    ensures
        performed(job, at_start(), events).len() == events.len(),
        performed(job, at_start(), events).is_prefix_of(
            job.plan(learned(job, at_start(), events)),
        ),
{
    run_takes_its_commands(job, at_start(), events);
    start_has_whole_plan(job, learned(job, at_start(), events));
}

/// An import succeeds exactly when it has carried out its whole plan without a failure. Its status
/// then names the clients whose redirect URIs or roles the plan leaves out.
pub proof fn import_succeeds_by_its_whole_plan(job: ImportJob, events: Seq<EventView>)
    requires
        answered(job, at_start(), events),
    ensures
        ({
            let end = outcome(job, at_start(), events);
            let facts = learned(job, at_start(), events);
            &&& end is Done && !has_failed(end) <==> !has_failed(end) && performed(
                job,
                at_start(),
                events,
            ) == job.plan(facts)
            &&& end is Done && !has_failed(end) ==> end == ImportTurnView::Done(
                Ok(imported(job.import, job.passed_over(facts.uuids, 0))),
            )
        }),
{
    let end = outcome(job, at_start(), events);
    run_takes_its_commands(job, at_start(), events);
    start_has_whole_plan(job, learned(job, at_start(), events));
    if !has_failed(end) {
        let done = performed(job, at_start(), events);
        let plan = job.plan(learned(job, at_start(), events));
        if end is Done {
            assert(plan =~= done);
            run_reports_what_it_passed_over(job, at_start(), events);
            assert(passed_so_far(at_start()) + job.passed_over(
                learned(job, at_start(), events).uuids,
                0,
            ) =~= job.passed_over(learned(job, at_start(), events).uuids, 0));
        } else {
            waiting_leaves_a_command(job, end->Waiting_0, no_facts(job));
            assert(plan.len() > done.len());
        }
    }
}

/// Where an import waits, a command is left.
proof fn waiting_leaves_a_command(job: ImportJob, stage: ImportStageView, facts: ImportFacts)
    requires
        job.has_stage(stage),
    ensures
        job.rest(ImportTurnView::Waiting(stage), facts).len() > 0,
{
}

/// The plan for the clients from an index on has no more commands than that can take, and as many
/// where each of them gets a UUID.
proof fn clients_plan_length(
    job: ImportJob,
    session: SessionView,
    uuids: Seq<Option<Seq<char>>>,
    from: int,
)
    requires
        uuids.len() == job.import.realm.clients.len(),
    ensures
        job.clients_plan(session, uuids, from).len() <= job.clients_effort(from),
        (forall|i: int| 0 <= i < uuids.len() ==> uuids[i] is Some) ==> job.clients_plan(
            session,
            uuids,
            from,
        ).len() == job.clients_effort(from),
    decreases job.import.realm.clients.len() - from,
{
    if 0 <= from < job.import.realm.clients.len() {
        clients_plan_length(job, session, uuids, from + 1);
    }
}

/// However it goes, an import ends: it carries out no more commands than the specification calls
/// for, whatever it learns. Where it succeeds and no client was there already, it has carried out
/// just as many.
pub proof fn import_ends(job: ImportJob, events: Seq<EventView>)
    requires
        answered(job, at_start(), events),
    ensures
        events.len() <= job.effort(),
        events.len() == job.effort() ==> outcome(job, at_start(), events) is Done,
        ({
            let uuids = learned(job, at_start(), events).uuids;
            let end = outcome(job, at_start(), events);
            end is Done && !has_failed(end) && (forall|i: int|
                0 <= i < uuids.len() ==> uuids[i] is Some) ==> events.len() == job.effort()
        }),
{
    let facts = learned(job, at_start(), events);
    import_follows_its_plan(job, events);
    import_succeeds_by_its_whole_plan(job, events);
    facts_cover_clients(job, at_start(), events);
    clients_plan_length(job, facts.session(), facts.uuids, 0);
    assert(job.plan(facts).len() <= job.effort());
    let done = performed(job, at_start(), events);
    if events.len() == job.effort() {
        assert(done =~= job.plan(facts));
    }
}

/// What an import has learned by its end is what the outside said: the cluster that was read, the
/// credentials in the secret that was read, and the token of the login.
pub proof fn import_learns_what_it_is_told(job: ImportJob, events: Seq<EventView>)
    requires
        answered(job, at_start(), events),
        events.len() >= 3,
    ensures
        ({
            let facts = learned(job, at_start(), events);
            &&& events[0] == EventView::Cluster(Ok(facts.cluster))
            &&& events[1] matches EventView::Secret(Ok(secret))
            &&& credentials_result(secret) == Ok::<(Seq<char>, Seq<char>), ErrorView>(
                (facts.username, facts.password),
            )
            &&& events[2] matches EventView::Json(login) && (authenticate_result(login) matches Ok(
                token,
            ) ==> facts.token == token)
        }),
{
    reveal_with_fuel(answered, 4);
    reveal_with_fuel(learned, 4);
    let others = events.drop_first();
    let more = others.drop_first();
    assert(others[0] == events[1]);
    assert(more[0] == events[2]);
}

/// An import never goes back to an earlier client.
proof fn clients_seen_never_falls(job: ImportJob, turn: ImportTurnView, events: Seq<EventView>)
    requires
        has_turn(job, turn),
    ensures
        clients_seen(job, turn) <= clients_seen(job, outcome(job, turn, events)),
    decreases events.len(),
{
    if events.len() > 0 {
        if turn is Waiting {
            steps_count_what_is_there(job, turn->Waiting_0, events[0]);
        }
        clients_seen_never_falls(job, next_turn(job, turn, events[0]), events.drop_first());
    }
}

/// A run that counts what is there ends with a turn that counts what is there.
proof fn outcome_counts_what_is_there(job: ImportJob, turn: ImportTurnView, events: Seq<EventView>)
    requires
        has_turn(job, turn),
    ensures
        has_turn(job, outcome(job, turn, events)),
    decreases events.len(),
{
    if events.len() > 0 {
        if turn is Waiting {
            steps_count_what_is_there(job, turn->Waiting_0, events[0]);
        }
        outcome_counts_what_is_there(job, next_turn(job, turn, events[0]), events.drop_first());
    }
}

/// What a run learns of a client from some turn on is what was said of it then.
pub(crate) proof fn run_learns_uuid(
    job: ImportJob,
    turn: ImportTurnView,
    events: Seq<EventView>,
    at: int,
    work: WorkView,
    index: int,
    delivery: JsonDeliveryView,
    uuid: Option<Seq<char>>,
)
    requires
        has_turn(job, turn),
        answered(job, turn, events),
        0 <= at < events.len(),
        outcome(job, turn, events.take(at)) == ImportTurnView::Waiting(
            ImportStageView::Client { work, index },
        ),
        events[at] == EventView::Json(delivery),
        uuid == (match create_client_result(
            job.import.realm.name,
            job.import.realm.clients[index].client_id,
            delivery,
        ) {
            Ok(uuid) => Some(uuid),
            Err(_) => None,
        }),
    ensures
        learned(job, turn, events).uuids[index] == uuid,
    decreases at,
{
    let stage = turn->Waiting_0;
    let next = job.step(stage, events[0]);
    let others = events.drop_first();
    steps_count_what_is_there(job, stage, events[0]);
    facts_cover_clients(job, next, others);
    if at > 0 {
        assert(events.take(at).drop_first() =~= others.take(at - 1));
        assert(events.take(at)[0] == events[0]);
        clients_seen_never_falls(job, next, others.take(at - 1));
        run_learns_uuid(job, next, others, at - 1, work, index, delivery, uuid);
        outcome_counts_what_is_there(job, next, others.take(at - 1));
        let facts = learned(job, next, others);
        assert(learn(job, stage, events[0], facts).uuids[index] == facts.uuids[index]);
    } else {
        assert(events.take(at).len() == 0);
        assert(stage == ImportStageView::Client { work, index });
    }
}

/// The redirect URIs and roles of a client are created under the UUID that came back when that
/// client was created: it is this UUID that the plan of the run holds for the client.
pub proof fn client_keeps_its_uuid(
    job: ImportJob,
    events: Seq<EventView>,
    at: int,
    work: WorkView,
    index: int,
    delivery: JsonDeliveryView,
    uuid: Seq<char>,
)
    requires
        answered(job, at_start(), events),
        0 <= at < events.len(),
        outcome(job, at_start(), events.take(at)) == ImportTurnView::Waiting(
            ImportStageView::Client { work, index },
        ),
        events[at] == EventView::Json(delivery),
        create_client_result(
            job.import.realm.name,
            job.import.realm.clients[index].client_id,
            delivery,
        ) == Ok::<Seq<char>, ErrorView>(uuid),
    ensures
        learned(job, at_start(), events).uuids[index] == Some(uuid),
{
    run_learns_uuid(job, at_start(), events, at, work, index, delivery, Some(uuid));
}

// ---- What is passed over ----

/// A client that gets no UUID, though it has redirect URIs or roles, is among those passed over.
proof fn client_is_among_the_passed_over(
    job: ImportJob,
    uuids: Seq<Option<Seq<char>>>,
    from: int,
    index: int,
)
    requires
        0 <= from <= index < job.import.realm.clients.len(),
        uuids[index] is None,
        has_parts(job.import.realm.clients[index]),
    ensures
        job.passed_over(uuids, from).contains(job.import.realm.clients[index].client_id),
    decreases index - from,
{
    let names = job.passed_over(uuids, from);
    let name = job.import.realm.clients[index].client_id;
    if from == index {
        assert(names[0] == name);
    } else {
        client_is_among_the_passed_over(job, uuids, from + 1, index);
        let others = job.passed_over(uuids, from + 1);
        let k = choose|k: int| 0 <= k < others.len() && others[k] == name;
        if uuids[from] is None && has_parts(job.import.realm.clients[from]) {
            assert(names[k + 1] == name);
        } else {
            assert(names[k] == name);
        }
    }
}

/// A list of names mentions each of them.
proof fn each_name_is_quoted(names: Seq<Seq<char>>, i: int)
    requires
        0 <= i < names.len(),
    ensures
        mentions(quoted_names(names), names[i]),
    decreases names.len(),
{
    if names.len() == 1 {
        middle_is_mentioned("'"@, names[0], "'"@, names[0]);
    } else if i == names.len() - 1 {
        let before = quoted_names(names.drop_last()) + ", '"@;
        middle_is_mentioned(before, names[i], "'"@, names[i]);
    } else {
        let shorter = quoted_names(names.drop_last());
        each_name_is_quoted(names.drop_last(), i);
        longer_text_mentions_as_much(Seq::empty(), shorter, ", '"@ + names.last() + "'"@, names[i]);
        assert(quoted_names(names) =~= Seq::<char>::empty() + shorter + (", '"@ + names.last()
            + "'"@));
    }
}

/// The status of an import mentions each client that was passed over.
proof fn status_mentions_the_passed_over(import: ImportView, names: Seq<Seq<char>>, i: int)
    requires
        0 <= i < names.len(),
    ensures
        mentions(imported(import, names).message->0, names[i]),
{
    let message = imported(import, names).message->0;
    let quoted = quoted_names(names);
    let before = message.take(message.len() - quoted.len());
    each_name_is_quoted(names, i);
    longer_text_mentions_as_much(before, quoted, Seq::empty(), names[i]);
    assert(message =~= before + quoted + Seq::<char>::empty());
}

/// An import does not hide what it left out: where it succeeds but a client was there already, so
/// that its redirect URIs or roles were not requested, the message of the status names the client.
pub proof fn clients_left_out_are_named(job: ImportJob, events: Seq<EventView>, index: int)
    requires
        answered(job, at_start(), events),
        outcome(job, at_start(), events) is Done,
        !has_failed(outcome(job, at_start(), events)),
        0 <= index < job.import.realm.clients.len(),
        learned(job, at_start(), events).uuids[index] is None,
        has_parts(job.import.realm.clients[index]),
    ensures
        outcome(job, at_start(), events) matches ImportTurnView::Done(Ok(status)) && mentions(
            status.message->0,
            job.import.realm.clients[index].client_id,
        ),
{
    let uuids = learned(job, at_start(), events).uuids;
    let names = job.passed_over(uuids, 0);
    let name = job.import.realm.clients[index].client_id;
    import_succeeds_by_its_whole_plan(job, events);
    client_is_among_the_passed_over(job, uuids, 0, index);
    let k = choose|k: int| 0 <= k < names.len() && names[k] == name;
    status_mentions_the_passed_over(job.import, names, k);
}

/// Whether a turn is that of an import that has created its realm.
pub open spec fn has_created_realm(turn: ImportTurnView) -> bool {
    turn matches ImportTurnView::Waiting(stage) && (work_at(stage) matches Some(work)
        && work.realm_created)
}

/// An import that has created its realm creates each client that is left, or fails.
proof fn created_realm_gets_its_clients(
    job: ImportJob,
    turn: ImportTurnView,
    events: Seq<EventView>,
    index: int,
)
    requires
        has_turn(job, turn),
        has_created_realm(turn),
        answered(job, turn, events),
        outcome(job, turn, events) is Done,
        !has_failed(outcome(job, turn, events)),
        clients_seen(job, turn) <= index < job.import.realm.clients.len(),
    ensures
        learned(job, turn, events).uuids[index] is Some,
    decreases events.len(),
{
    let stage = turn->Waiting_0;
    let next = job.step(stage, events[0]);
    let others = events.drop_first();
    steps_count_what_is_there(job, stage, events[0]);
    facts_cover_clients(job, next, others);
    if next is Waiting {
        if clients_seen(job, next) <= index {
            created_realm_gets_its_clients(job, next, others, index);
        }
    } else {
        assert(answered(job, next, others));
        assert(others.len() == 0);
    }
}

/// None of these clients is passed over where each gets a UUID.
proof fn nothing_is_passed_over(job: ImportJob, uuids: Seq<Option<Seq<char>>>, from: int)
    requires
        0 <= from,
        forall|i: int| 0 <= i < job.import.realm.clients.len() ==> uuids[i] is Some,
    ensures
        job.passed_over(uuids, from) == Seq::<Seq<char>>::empty(),
    decreases job.import.realm.clients.len() - from,
{
    if from < job.import.realm.clients.len() {
        nothing_is_passed_over(job, uuids, from + 1);
    }
}

/// An import that creates its realm imports it whole, or fails: where it succeeds, it has created
/// every client, has sent every request that the specification calls for, and its status names
/// nothing that was left out.
pub proof fn created_realms_are_imported_whole(
    job: ImportJob,
    events: Seq<EventView>,
    code: int,
    text: Seq<char>,
)
    requires
        answered(job, at_start(), events),
        outcome(job, at_start(), events) is Done,
        !has_failed(outcome(job, at_start(), events)),
        events.len() >= 4,
        events[3] == EventView::Text(TextDeliveryView::Answered(code, text)),
        is_success_code(code),
    ensures
        events.len() == job.effort(),
        outcome(job, at_start(), events) == ImportTurnView::Done(
            Ok(imported(job.import, Seq::empty())),
        ),
        forall|i: int|
            0 <= i < job.import.realm.clients.len() ==> learned(
                job,
                at_start(),
                events,
            ).uuids[i] is Some,
{
    reveal_with_fuel(answered, 5);
    reveal_with_fuel(outcome, 5);
    reveal_with_fuel(learned, 5);
    let rest1 = events.drop_first();
    let rest2 = rest1.drop_first();
    let rest3 = rest2.drop_first();
    let rest4 = rest3.drop_first();
    assert(rest1[0] == events[1]);
    assert(rest2[0] == events[2]);
    assert(rest3[0] == events[3]);
    let turn1 = job.step(import_start(), events[0]);
    let turn2 = job.step(turn1->Waiting_0, events[1]);
    let turn3 = job.step(turn2->Waiting_0, events[2]);
    let turn4 = job.step(turn3->Waiting_0, events[3]);
    assert(turn3->Waiting_0 is Realm);
    assert(answered(job, turn4, rest4));
    assert(outcome(job, turn4, rest4) == outcome(job, at_start(), events));
    let uuids = learned(job, at_start(), events).uuids;
    assert(uuids == learned(job, turn4, rest4).uuids);
    facts_cover_clients(job, at_start(), events);
    assert forall|i: int| 0 <= i < job.import.realm.clients.len() implies uuids[i] is Some by {
        created_realm_gets_its_clients(job, turn4, rest4, i);
    }
    nothing_is_passed_over(job, uuids, 0);
    import_succeeds_by_its_whole_plan(job, events);
    import_ends(job, events);
}

// ---- Imports that go well ----

/// Whether a reply says that something was created, or that it is there already where that is to
/// be expected: not in a realm that the import has created.
pub open spec fn is_welcome_code(code: int, realm_created: bool) -> bool {
    is_success_code(code) || is_conflict_code(code) && !realm_created
}

/// Whether an event is good news at a stage: what was to be read was read, the login gave a token,
/// the realm was created or is there already, and the role was created, or the client with a UUID,
/// or either is there already in a realm that was there already. For a redirect URI any answer will
/// do.
pub open spec fn goes_well(job: ImportJob, stage: ImportStageView, event: EventView) -> bool {
    let realm = job.import.realm;
    match stage {
        ImportStageView::Connect(ConnectStageView::Cluster) => event matches EventView::Cluster(
            Ok(_),
        ),
        ImportStageView::Connect(ConnectStageView::Secret { .. }) => event
            matches EventView::Secret(Ok(secret)) && credentials_result(secret) is Ok,
        ImportStageView::Connect(ConnectStageView::Login { .. }) => event matches EventView::Json(
            login,
        ) && authenticate_result(login) is Ok,
        ImportStageView::Client { work, index } => event matches EventView::Json(delivery) && (
        delivery.is_conflict() && !work.realm_created || create_client_result(
            realm.name,
            realm.clients[index].client_id,
            delivery,
        ) is Ok),
        ImportStageView::Redirect { .. } => event matches EventView::Text(
            TextDeliveryView::Answered(_, _),
        ),
        ImportStageView::Realm { .. } => event matches EventView::Text(
            TextDeliveryView::Answered(code, _),
        ) && is_welcome_code(code, false),
        ImportStageView::RealmRole { work, .. } => event matches EventView::Text(
            TextDeliveryView::Answered(code, _),
        ) && is_welcome_code(code, work.realm_created),
        ImportStageView::ClientRole { work, .. } => event matches EventView::Text(
            TextDeliveryView::Answered(code, _),
        ) && is_welcome_code(code, work.realm_created),
    }
}

/// Whether a turn is the end of an import that has succeeded. The status is ready, and names the
/// clients that were passed over.
pub open spec fn has_succeeded(job: ImportJob, turn: ImportTurnView) -> bool {
    exists|passed_over: Seq<Seq<char>>|
        turn == ImportTurnView::Done(Ok(#[trigger] imported(job.import, passed_over)))
}

/// Whether each of these events is good news when it comes.
pub open spec fn all_goes_well(
    job: ImportJob,
    turn: ImportTurnView,
    events: Seq<EventView>,
) -> bool
    decreases events.len(),
{
    events.len() > 0 ==> match turn {
        ImportTurnView::Waiting(stage) => goes_well(job, stage, events[0]) && all_goes_well(
            job,
            job.step(stage, events[0]),
            events.drop_first(),
        ),
        ImportTurnView::Done(_) => false,
    }
}

/// Where an import stands after so many commands, or at its end, where `world` says what comes of
/// the command of each stage.
pub open spec fn course(
    job: ImportJob,
    turn: ImportTurnView,
    world: spec_fn(ImportStageView) -> EventView,
    commands: nat,
) -> ImportTurnView
    decreases commands,
{
    match turn {
        ImportTurnView::Waiting(stage) if commands > 0 => course(
            job,
            job.step(stage, world(stage)),
            world,
            (commands - 1) as nat,
        ),
        _ => turn,
    }
}

/// The most commands that can be left at a turn.
spec fn most_left(job: ImportJob, turn: ImportTurnView) -> int {
    let realm = job.import.realm;
    match turn {
        ImportTurnView::Done(_) => 0,
        ImportTurnView::Waiting(stage) => match stage {
            ImportStageView::Connect(ConnectStageView::Cluster) => job.effort() as int,
            ImportStageView::Connect(ConnectStageView::Secret { .. }) => job.effort() - 1,
            ImportStageView::Connect(ConnectStageView::Login { .. }) => job.effort() - 2,
            ImportStageView::Realm { .. } => job.effort() - 3,
            ImportStageView::RealmRole { index, .. } => realm.realm_roles.len() - index
                + job.clients_effort(0),
            ImportStageView::Client { index, .. } => job.clients_effort(index) as int,
            ImportStageView::Redirect { client, index, .. } => {
                realm.clients[client].redirect_uris.len() - index
                    + realm.clients[client].roles.len() + job.clients_effort(client + 1)
            },
            ImportStageView::ClientRole { client, index, .. } => {
                realm.clients[client].roles.len() - index + job.clients_effort(client + 1)
            },
        },
    }
}

/// Good news takes at least one command off what is left, and is no failure.
proof fn good_news_leads_on(job: ImportJob, stage: ImportStageView, event: EventView)
    requires
        job.has_stage(stage),
        goes_well(job, stage, event),
    ensures
        ({
            let next = job.step(stage, event);
            &&& answers(event, job.command(stage))
            &&& has_turn(job, next)
            &&& !has_failed(next)
            &&& next is Done ==> has_succeeded(job, next)
            &&& 0 <= most_left(job, next) < most_left(job, ImportTurnView::Waiting(stage))
        }),
{
}

/// Whether an event says that the realm is there already.
pub open spec fn says_conflict(event: EventView) -> bool {
    event matches EventView::Text(delivery) && delivery.is_conflict()
}

/// Whether an import can come to a stage where `world` says what comes of the commands: the import
/// has created the realm only where the realm was not there already.
pub open spec fn fits(
    world: spec_fn(ImportStageView) -> EventView,
    stage: ImportStageView,
) -> bool {
    work_at(stage) matches Some(work) ==> work.realm_created != says_conflict(
        world(ImportStageView::Realm { session: work.session }),
    )
}

/// An import that meets with nothing but good news comes to its end within the commands that are
/// left. Where it has created its realm it passes over no further client.
proof fn good_course_ends(
    job: ImportJob,
    turn: ImportTurnView,
    world: spec_fn(ImportStageView) -> EventView,
    commands: nat,
)
    requires
        has_turn(job, turn),
        turn matches ImportTurnView::Waiting(stage) && fits(world, stage),
        most_left(job, turn) <= commands,
        forall|stage: ImportStageView|
            job.has_stage(stage) && fits(world, stage) ==> goes_well(
                job,
                stage,
                #[trigger] world(stage),
            ),
    ensures
        has_succeeded(job, course(job, turn, world, commands)),
        has_created_realm(turn) || work_at(turn->Waiting_0) is None && (forall|session: SessionView|
            !says_conflict(#[trigger] world(ImportStageView::Realm { session }))) ==> course(
            job,
            turn,
            world,
            commands,
        ) == ImportTurnView::Done(Ok(imported(job.import, passed_so_far(turn)))),
    decreases commands,
{
    let stage = turn->Waiting_0;
    let next = job.step(stage, world(stage));
    good_news_leads_on(job, stage, world(stage));
    if next is Waiting {
        good_course_ends(job, next, world, (commands - 1) as nat);
    } else {
        assert(course(job, next, world, (commands - 1) as nat) == next);
    }
}

/// An import succeeds in every world in which all goes well at each stage that it can come to. In
/// a world in which the realm is not there yet it then names no client as passed over.
pub proof fn import_succeeds_where_all_goes_well(
    job: ImportJob,
    world: spec_fn(ImportStageView) -> EventView,
)
    requires
        forall|stage: ImportStageView|
            job.has_stage(stage) && fits(world, stage) ==> goes_well(
                job,
                stage,
                #[trigger] world(stage),
            ),
    ensures
        has_succeeded(job, course(job, at_start(), world, job.effort())),
        (forall|session: SessionView|
            !says_conflict(#[trigger] world(ImportStageView::Realm { session }))) ==> course(
            job,
            at_start(),
            world,
            job.effort(),
        ) == ImportTurnView::Done(Ok(imported(job.import, Seq::empty()))),
{
    good_course_ends(job, at_start(), world, job.effort());
}

/// An import that has succeeded can be repeated: where the realm is there already, it succeeds
/// again, and is ready, whichever of the clients and roles are there already too and whatever the
/// answer to a redirect URI is.
pub proof fn import_can_be_repeated(
    job: ImportJob,
    world: spec_fn(ImportStageView) -> EventView,
)
    requires
        forall|session: SessionView|
            says_conflict(#[trigger] world(ImportStageView::Realm { session })),
        forall|stage: ImportStageView|
            job.has_stage(stage) && !has_created_realm(ImportTurnView::Waiting(stage))
                ==> goes_well(job, stage, #[trigger] world(stage)),
    ensures
        has_succeeded(job, course(job, at_start(), world, job.effort())),
        course(job, at_start(), world, job.effort()) matches ImportTurnView::Done(Ok(status))
            && status.ready,
{
    assert forall|stage: ImportStageView|
        job.has_stage(stage) && fits(world, stage) implies goes_well(
        job,
        stage,
        #[trigger] world(stage),
    ) by {
        if let Some(work) = work_at(stage) {
            assert(says_conflict(world(ImportStageView::Realm { session: work.session })));
        }
    }
    import_succeeds_where_all_goes_well(job, world);
}

/// A run that has met with nothing but good news has answered its commands and has not failed.
proof fn good_run_does_not_fail(job: ImportJob, turn: ImportTurnView, events: Seq<EventView>)
    requires
        has_turn(job, turn),
        !has_failed(turn),
        all_goes_well(job, turn, events),
    ensures
        answered(job, turn, events),
        !has_failed(outcome(job, turn, events)),
    decreases events.len(),
{
    if events.len() > 0 {
        let stage = turn->Waiting_0;
        good_news_leads_on(job, stage, events[0]);
        good_run_does_not_fail(job, job.step(stage, events[0]), events.drop_first());
    }
}

/// A run that meets with nothing but good news never fails: it ends with its last planned command,
/// at the latest when it has carried out as many commands as the specification calls for. Its
/// status then names the clients whose redirect URIs or roles the plan leaves out, and no others.
pub proof fn good_runs_end_in_success(job: ImportJob, events: Seq<EventView>)
    requires
        all_goes_well(job, at_start(), events),
    ensures
        ({
            let end = outcome(job, at_start(), events);
            let facts = learned(job, at_start(), events);
            &&& answered(job, at_start(), events)
            &&& end is Waiting || end == ImportTurnView::Done(
                Ok(imported(job.import, job.passed_over(facts.uuids, 0))),
            )
            &&& end is Done <==> performed(job, at_start(), events) == job.plan(facts)
            &&& events.len() == job.effort() ==> end is Done
        }),
{
    good_run_does_not_fail(job, at_start(), events);
    import_succeeds_by_its_whole_plan(job, events);
    import_ends(job, events);
}

} // verus!
