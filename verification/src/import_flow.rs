//! The import of a realm, step by step: get at the cluster's API, then create the realm, its
//! roles, and its clients one after the other, each with its redirect URIs and its roles.
//!
//! An import can be repeated: where the API answers that the realm is there already, the import
//! goes on, and then also where a role or a client is. None of the requests that an import sends
//! tells the UUID of a client that is there already, so such a client is passed over together with
//! its redirect URIs and its roles, and the status of the import names it. In a realm that the
//! import has created itself nothing was there before, so there each refusal of a role or a client
//! is an error.
use crate::api::{
    create_client_call, create_client_reply, create_client_request, create_client_result,
    create_realm_call, create_realm_reply, create_realm_request, create_realm_result,
    create_redirect_call, create_redirect_reply, create_redirect_request, create_redirect_result,
    create_role_call, create_role_reply, create_role_request, create_role_result,
};
use crate::connect::{
    connect_command, connect_step, Command, CommandView, ConnectStage, ConnectStageView,
    ConnectTurn, ConnectTurnView, Event, EventView, Session, SessionView,
};
use crate::entities::{
    ClientImport, ClientView, ImportView, RealmImportSpec, RealmImportStatus, StatusView,
};
use crate::error::{ErrorView, OperatorError};
use crate::text::{decimal, decimal_text};
use vstd::prelude::*;

verus! {

/// What is to be imported, and the namespace that the cluster lies in.
pub struct ImportJob {
    pub import: ImportView,
    pub namespace: Seq<char>,
}

/// What an import carries along once the realm is there.
#[derive(Debug, PartialEq, Eq)]
struct Work {
    session: Session,
    /// Whether the realm was created by this import, and not there already
    realm_created: bool,
    /// The IDs of the clients that were there already and whose redirect URIs or roles were passed
    /// over
    passed_over: Vec<String>,
}

/// What an import carries along once the realm is there: its session, whether it has created the
/// realm itself, and the IDs of the clients whose redirect URIs or roles it has passed over.
pub struct WorkView {
    pub session: SessionView,
    pub realm_created: bool,
    pub passed_over: Seq<Seq<char>>,
}

impl View for Work {
    type V = WorkView;

    closed spec fn view(&self) -> WorkView {
        WorkView {
            session: self.session@,
            realm_created: self.realm_created,
            passed_over: self.passed_over.deep_view(),
        }
    }
}

/// Whether a client has redirect URIs or roles, which are created under its UUID.
pub open spec fn has_parts(client: ClientView) -> bool {
    client.redirect_uris.len() > 0 || client.roles.len() > 0
}

impl WorkView {
    /// The work of an import whose realm has just been created, or was there already.
    pub open spec fn begin(session: SessionView, realm_created: bool) -> WorkView {
        WorkView { session, realm_created, passed_over: Seq::empty() }
    }

    /// The work after a client that was there already. It is noted where parts of it are passed
    /// over.
    pub open spec fn passing(self, client: ClientView) -> WorkView {
        if has_parts(client) {
            WorkView { passed_over: self.passed_over.push(client.client_id), ..self }
        } else {
            self
        }
    }
}

impl Work {
    fn begin(session: Session, realm_created: bool) -> (work: Work)
        ensures
            work@ == WorkView::begin(session@, realm_created),
    {
        let work = Work { session, realm_created, passed_over: Vec::new() };
        assert(work@.passed_over =~= Seq::empty());
        work
    }

    fn passing(self, client: &ClientImport) -> (work: Work)
        ensures
            work@ == self@.passing(client@),
    {
        if client.redirect_uris.len() > 0 || client.roles.len() > 0 {
            let Work { session, realm_created, passed_over } = self;
            let mut passed_over: Vec<String> = passed_over;
            passed_over.push(client.client_id.clone());
            let work = Work { session, realm_created, passed_over };
            assert(work@.passed_over =~= self@.passed_over.push(client@.client_id));
            work
        } else {
            self
        }
    }
}

/// Where an import stands: what is to be done next. An index counts roles, clients or URIs in the
/// order of the specification.
#[derive(Debug, PartialEq, Eq)]
enum ImportStage {
    Connect(ConnectStage),
    Realm { session: Session },
    RealmRole { work: Work, index: usize },
    Client { work: Work, index: usize },
    Redirect { work: Work, client: usize, uuid: String, index: usize },
    ClientRole { work: Work, client: usize, uuid: String, index: usize },
}

/// What the stage of an import says.
pub enum ImportStageView {
    Connect(ConnectStageView),
    Realm { session: SessionView },
    RealmRole { work: WorkView, index: int },
    Client { work: WorkView, index: int },
    Redirect { work: WorkView, client: int, uuid: Seq<char>, index: int },
    ClientRole { work: WorkView, client: int, uuid: Seq<char>, index: int },
}

/// Where an event leads in an import.
pub enum ImportTurnView {
    Waiting(ImportStageView),
    Done(Result<StatusView, ErrorView>),
}

impl View for ImportStage {
    type V = ImportStageView;

    closed spec fn view(&self) -> ImportStageView {
        match self {
            ImportStage::Connect(stage) => ImportStageView::Connect(stage@),
            ImportStage::Realm { session } => ImportStageView::Realm { session: session@ },
            ImportStage::RealmRole { work, index } => ImportStageView::RealmRole {
                work: work@,
                index: *index as int,
            },
            ImportStage::Client { work, index } => ImportStageView::Client {
                work: work@,
                index: *index as int,
            },
            ImportStage::Redirect { work, client, uuid, index } => ImportStageView::Redirect {
                work: work@,
                client: *client as int,
                uuid: uuid@,
                index: *index as int,
            },
            ImportStage::ClientRole { work, client, uuid, index } => {
                ImportStageView::ClientRole {
                    work: work@,
                    client: *client as int,
                    uuid: uuid@,
                    index: *index as int,
                }
            },
        }
    }
}

/// Names in quotation marks, with commas between them.
pub open spec fn quoted_names(names: Seq<Seq<char>>) -> Seq<char>
    decreases names.len(),
{
    if names.len() == 0 {
        Seq::empty()
    } else if names.len() == 1 {
        "'"@ + names[0] + "'"@
    } else {
        quoted_names(names.drop_last()) + ", '"@ + names.last() + "'"@
    }
}

/// What the status of an import says of the clients that were passed over: nothing where there
/// are none.
pub open spec fn passed_over_note(passed_over: Seq<Seq<char>>) -> Seq<char> {
    if passed_over.len() == 0 {
        Seq::empty()
    } else {
        "; redirect URIs and roles not imported for clients that already exist: "@ + quoted_names(
            passed_over,
        )
    }
}

/// The status of an import that has come to its end and has passed over the redirect URIs or roles
/// of these clients.
pub open spec fn imported(import: ImportView, passed_over: Seq<Seq<char>>) -> StatusView {
    StatusView {
        ready: true,
        message: Some(
            "Realm '"@ + import.realm.name + "' imported successfully with "@ + decimal(
                import.realm.clients.len(),
            ) + " clients and "@ + decimal(import.realm.realm_roles.len()) + " realm roles"@
                + passed_over_note(passed_over),
        ),
        phase: Some("Ready"@),
    }
}

impl ImportJob {
    /// Whether what a stage counts is there.
    pub open spec fn has_stage(self, stage: ImportStageView) -> bool {
        let realm = self.import.realm;
        match stage {
            ImportStageView::Connect(_) => true,
            ImportStageView::Realm { .. } => true,
            ImportStageView::RealmRole { index, .. } => 0 <= index < realm.realm_roles.len(),
            ImportStageView::Client { index, .. } => 0 <= index < realm.clients.len(),
            ImportStageView::Redirect { client, index, .. } => 0 <= client < realm.clients.len()
                && 0 <= index < realm.clients[client].redirect_uris.len(),
            ImportStageView::ClientRole { client, index, .. } => 0 <= client < realm.clients.len()
                && 0 <= index < realm.clients[client].roles.len(),
        }
    }

    /// On to the client with this index, or to the end.
    pub open spec fn to_client(self, work: WorkView, index: int) -> ImportTurnView {
        if index < self.import.realm.clients.len() {
            ImportTurnView::Waiting(ImportStageView::Client { work, index })
        } else {
            ImportTurnView::Done(Ok(imported(self.import, work.passed_over)))
        }
    }

    /// On to the role of the realm with this index, or past the roles.
    pub open spec fn to_realm_role(self, work: WorkView, index: int) -> ImportTurnView {
        if index < self.import.realm.realm_roles.len() {
            ImportTurnView::Waiting(ImportStageView::RealmRole { work, index })
        } else {
            self.to_client(work, 0)
        }
    }

    /// On to the role of a client with this index, or past the client.
    pub open spec fn to_client_role(
        self,
        work: WorkView,
        client: int,
        uuid: Seq<char>,
        index: int,
    ) -> ImportTurnView {
        if index < self.import.realm.clients[client].roles.len() {
            ImportTurnView::Waiting(ImportStageView::ClientRole { work, client, uuid, index })
        } else {
            self.to_client(work, client + 1)
        }
    }

    /// On to the redirect URI of a client with this index, or past the URIs.
    pub open spec fn to_redirect(
        self,
        work: WorkView,
        client: int,
        uuid: Seq<char>,
        index: int,
    ) -> ImportTurnView {
        if index < self.import.realm.clients[client].redirect_uris.len() {
            ImportTurnView::Waiting(ImportStageView::Redirect { work, client, uuid, index })
        } else {
            self.to_client_role(work, client, uuid, 0)
        }
    }

    /// What is to be done at a stage.
    pub open spec fn command(self, stage: ImportStageView) -> CommandView {
        let realm = self.import.realm;
        match stage {
            ImportStageView::Connect(stage) => connect_command(
                self.import.cluster,
                self.namespace,
                stage,
            ),
            ImportStageView::Realm { session } => CommandView::CallForText(
                create_realm_call(
                    session.api_url,
                    session.token,
                    realm.name,
                    realm.display_name,
                    realm.enabled,
                ),
            ),
            ImportStageView::RealmRole { work, index } => CommandView::CallForText(
                create_role_call(
                    work.session.api_url,
                    work.session.token,
                    realm.name,
                    None,
                    realm.realm_roles[index],
                ),
            ),
            ImportStageView::Client { work, index } => CommandView::CallForJson(
                create_client_call(
                    work.session.api_url,
                    work.session.token,
                    realm.name,
                    realm.clients[index],
                ),
            ),
            ImportStageView::Redirect { work, client, uuid, index } => CommandView::CallForText(
                create_redirect_call(
                    work.session.api_url,
                    work.session.token,
                    realm.name,
                    uuid,
                    realm.clients[client].redirect_uris[index],
                ),
            ),
            ImportStageView::ClientRole { work, client, uuid, index } => {
                CommandView::CallForText(
                    create_role_call(
                        work.session.api_url,
                        work.session.token,
                        realm.name,
                        Some(uuid),
                        realm.clients[client].roles[index],
                    ),
                )
            },
        }
    }

    /// Where an event leads from a stage. An event that is no answer leads nowhere. That the realm
    /// is there already is as good as its creation. In such a realm, a role that is there already
    /// is as good as a new one, and a client that is there already is passed over, together with
    /// its redirect URIs and its roles, whose requests need its UUID. In a realm that this import
    /// has created, either is an error.
    pub open spec fn step(self, stage: ImportStageView, event: EventView) -> ImportTurnView {
        let realm = self.import.realm;
        match (stage, event) {
            (ImportStageView::Connect(stage), event) => match connect_step(
                self.import.cluster,
                self.namespace,
                stage,
                event,
            ) {
                ConnectTurnView::Waiting(stage) => ImportTurnView::Waiting(
                    ImportStageView::Connect(stage),
                ),
                ConnectTurnView::Connected(session) => ImportTurnView::Waiting(
                    ImportStageView::Realm { session },
                ),
                ConnectTurnView::Failed(e) => ImportTurnView::Done(Err(e)),
            },
            (ImportStageView::Realm { session }, EventView::Text(delivery)) => {
                match create_realm_result(realm.name, delivery) {
                    Ok(_) => self.to_realm_role(WorkView::begin(session, true), 0),
                    Err(_) if delivery.is_conflict() => self.to_realm_role(
                        WorkView::begin(session, false),
                        0,
                    ),
                    Err(e) => ImportTurnView::Done(Err(e)),
                }
            },
            (ImportStageView::RealmRole { work, index }, EventView::Text(delivery)) => {
                match create_role_result(realm.name, realm.realm_roles[index].name, delivery) {
                    Ok(_) => self.to_realm_role(work, index + 1),
                    Err(_) if delivery.is_conflict() && !work.realm_created => self.to_realm_role(
                        work,
                        index + 1,
                    ),
                    Err(e) => ImportTurnView::Done(Err(e)),
                }
            },
            (ImportStageView::Client { work, index }, EventView::Json(delivery)) => {
                match create_client_result(realm.name, realm.clients[index].client_id, delivery) {
                    Ok(uuid) => self.to_redirect(work, index, uuid, 0),
                    Err(_) if delivery.is_conflict() && !work.realm_created => self.to_client(
                        work.passing(realm.clients[index]),
                        index + 1,
                    ),
                    Err(e) => ImportTurnView::Done(Err(e)),
                }
            },
            (
                ImportStageView::Redirect { work, client, uuid, index },
                EventView::Text(delivery),
            ) => match create_redirect_result(
                realm.clients[client].redirect_uris[index],
                realm.clients[client].client_id,
                delivery,
            ) {
                Ok(_) => self.to_redirect(work, client, uuid, index + 1),
                Err(e) => ImportTurnView::Done(Err(e)),
            },
            (
                ImportStageView::ClientRole { work, client, uuid, index },
                EventView::Text(delivery),
            ) => match create_role_result(
                realm.name,
                realm.clients[client].roles[index].name,
                delivery,
            ) {
                Ok(_) => self.to_client_role(work, client, uuid, index + 1),
                Err(_) if delivery.is_conflict() && !work.realm_created => self.to_client_role(
                    work,
                    client,
                    uuid,
                    index + 1,
                ),
                Err(e) => ImportTurnView::Done(Err(e)),
            },
            _ => ImportTurnView::Waiting(stage),
        }
    }
}

/// The stage that an import starts at.
pub open spec fn import_start() -> ImportStageView {
    ImportStageView::Connect(ConnectStageView::Cluster)
}

/// Names in quotation marks, with commas between them.
fn quote_names(names: &Vec<String>) -> (text: String)
    ensures
        text@ == quoted_names(names.deep_view()),
{
    let ghost all = names.deep_view();
    if names.len() == 0 {
        return String::new();
    }
    let mut text: String = "'".to_string().concat(names[0].as_str()).concat("'");
    assert(all.take(1)[0] == names@[0]@);
    let mut i: usize = 1;
    while i < names.len()
        invariant
            1 <= i <= names.len(),
            all == names.deep_view(),
            text@ == quoted_names(all.take(i as int)),
        decreases names.len() - i,
    {
        assert(all.take(i + 1).drop_last() =~= all.take(i as int));
        assert(all.take(i + 1).last() == names@[i as int]@);
        text = text.concat(", '").concat(names[i].as_str()).concat("'");
        i = i + 1;
    }
    assert(all.take(i as int) =~= all);
    text
}

/// What the status of an import says of the clients that were passed over.
fn note_passed_over(passed_over: &Vec<String>) -> (note: String)
    ensures
        note@ == passed_over_note(passed_over.deep_view()),
{
    if passed_over.len() == 0 {
        String::new()
    } else {
        let note = "; redirect URIs and roles not imported for clients that already exist: ";
        note.to_string().concat(quote_names(passed_over).as_str())
    }
}

/// An import under way.
#[derive(Debug)]
pub struct ImportFlow<'a> {
    spec: &'a RealmImportSpec,
    namespace: &'a str,
    stage: ImportStage,
}

/// Where an event leads: an import that goes on, or its result.
#[derive(Debug)]
pub enum ImportTurn<'a> {
    Waiting(ImportFlow<'a>),
    Done(Result<RealmImportStatus, OperatorError>),
}

impl<'a> ImportTurn<'a> {
    /// What this turn says.
    pub open spec fn view(&self) -> ImportTurnView {
        match self {
            ImportTurn::Waiting(flow) => ImportTurnView::Waiting(flow.stage()),
            ImportTurn::Done(result) => ImportTurnView::Done(
                match result {
                    Ok(status) => Ok(status@),
                    Err(e) => Err(e@),
                },
            ),
        }
    }

    /// Whether an import that goes on is still the same job.
    pub open spec fn is_of(&self, job: ImportJob) -> bool {
        match self {
            ImportTurn::Waiting(flow) => flow.job() == job,
            ImportTurn::Done(_) => true,
        }
    }
}

impl<'a> ImportFlow<'a> {
    #[verifier::type_invariant]
    spec fn counts_what_is_there(&self) -> bool {
        self.job().has_stage(self.stage())
    }

    /// What is being imported.
    pub closed spec fn job(&self) -> ImportJob {
        ImportJob { import: self.spec@, namespace: self.namespace@ }
    }

    /// Where the import stands.
    pub closed spec fn stage(&self) -> ImportStageView {
        self.stage@
    }

    /// Starts an import into a cluster of this namespace.
    pub fn start(spec: &'a RealmImportSpec, namespace: &'a str) -> (flow: ImportFlow<'a>)
        ensures
            flow.job() == (ImportJob { import: spec@, namespace: namespace@ }),
            flow.stage() == import_start(),
    {
        ImportFlow { spec, namespace, stage: ImportStage::Connect(ConnectStage::Cluster) }
    }

    /// What is to be done next.
    pub fn command(&self) -> (command: Command)
        ensures
            command@ == self.job().command(self.stage()),
            self.job().has_stage(self.stage()),
    {
        proof {
            use_type_invariant(self);
        }
        let realm = &self.spec.realm;
        match &self.stage {
            ImportStage::Connect(stage) => stage.command(
                self.spec.cluster_ref.name.as_str(),
                self.namespace,
            ),
            ImportStage::Realm { session } => Command::CallForText(
                create_realm_request(
                    session.api_url.as_str(),
                    session.token.as_str(),
                    realm.name.as_str(),
                    &realm.display_name,
                    realm.enabled,
                ),
            ),
            ImportStage::RealmRole { work, index } => Command::CallForText(
                create_role_request(
                    work.session.api_url.as_str(),
                    work.session.token.as_str(),
                    realm.name.as_str(),
                    None,
                    &realm.realm_roles[*index],
                ),
            ),
            ImportStage::Client { work, index } => Command::CallForJson(
                create_client_request(
                    work.session.api_url.as_str(),
                    work.session.token.as_str(),
                    realm.name.as_str(),
                    &realm.clients[*index],
                ),
            ),
            ImportStage::Redirect { work, client, uuid, index } => Command::CallForText(
                create_redirect_request(
                    work.session.api_url.as_str(),
                    work.session.token.as_str(),
                    realm.name.as_str(),
                    uuid.as_str(),
                    realm.clients[*client].redirect_uris[*index].as_str(),
                ),
            ),
            ImportStage::ClientRole { work, client, uuid, index } => Command::CallForText(
                create_role_request(
                    work.session.api_url.as_str(),
                    work.session.token.as_str(),
                    realm.name.as_str(),
                    Some(uuid.as_str()),
                    &realm.clients[*client].roles[*index],
                ),
            ),
        }
    }

    /// The result of an import that has come to its end.
    fn finish(spec: &RealmImportSpec, passed_over: &Vec<String>) -> (status: RealmImportStatus)
        ensures
            status@ == imported(spec@, passed_over.deep_view()),
    {
        let realm = &spec.realm;
        let message = "Realm '".to_string().concat(realm.name.as_str()).concat(
            "' imported successfully with ",
        ).concat(decimal_text(realm.clients.len() as u64).as_str()).concat(
            " clients and ",
        ).concat(decimal_text(realm.realm_roles.len() as u64).as_str()).concat(
            " realm roles",
        ).concat(note_passed_over(passed_over).as_str());
        RealmImportStatus { ready: true, message: Some(message), phase: Some("Ready".to_string()) }
    }

    fn to_client(
        spec: &'a RealmImportSpec,
        namespace: &'a str,
        work: Work,
        index: usize,
    ) -> (turn: ImportTurn<'a>)
        ensures
            turn.is_of(ImportJob { import: spec@, namespace: namespace@ }),
            turn@ == (ImportJob { import: spec@, namespace: namespace@ }).to_client(
                work@,
                index as int,
            ),
    {
        if index < spec.realm.clients.len() {
            ImportTurn::Waiting(
                ImportFlow { spec, namespace, stage: ImportStage::Client { work, index } },
            )
        } else {
            ImportTurn::Done(Ok(Self::finish(spec, &work.passed_over)))
        }
    }

    fn to_realm_role(
        spec: &'a RealmImportSpec,
        namespace: &'a str,
        work: Work,
        index: usize,
    ) -> (turn: ImportTurn<'a>)
        ensures
            turn.is_of(ImportJob { import: spec@, namespace: namespace@ }),
            turn@ == (ImportJob { import: spec@, namespace: namespace@ }).to_realm_role(
                work@,
                index as int,
            ),
    {
        if index < spec.realm.realm_roles.len() {
            ImportTurn::Waiting(
                ImportFlow { spec, namespace, stage: ImportStage::RealmRole { work, index } },
            )
        } else {
            Self::to_client(spec, namespace, work, 0)
        }
    }

    fn to_client_role(
        spec: &'a RealmImportSpec,
        namespace: &'a str,
        work: Work,
        client: usize,
        uuid: String,
        index: usize,
    ) -> (turn: ImportTurn<'a>)
        requires
            client < spec.realm.clients.len(),
        ensures
            turn.is_of(ImportJob { import: spec@, namespace: namespace@ }),
            turn@ == (ImportJob { import: spec@, namespace: namespace@ }).to_client_role(
                work@,
                client as int,
                uuid@,
                index as int,
            ),
    {
        if index < spec.realm.clients[client].roles.len() {
            ImportTurn::Waiting(
                ImportFlow {
                    spec,
                    namespace,
                    stage: ImportStage::ClientRole { work, client, uuid, index },
                },
            )
        } else {
            Self::to_client(spec, namespace, work, client + 1)
        }
    }

    fn to_redirect(
        spec: &'a RealmImportSpec,
        namespace: &'a str,
        work: Work,
        client: usize,
        uuid: String,
        index: usize,
    ) -> (turn: ImportTurn<'a>)
        requires
            client < spec.realm.clients.len(),
        ensures
            turn.is_of(ImportJob { import: spec@, namespace: namespace@ }),
            turn@ == (ImportJob { import: spec@, namespace: namespace@ }).to_redirect(
                work@,
                client as int,
                uuid@,
                index as int,
            ),
    {
        if index < spec.realm.clients[client].redirect_uris.len() {
            ImportTurn::Waiting(
                ImportFlow {
                    spec,
                    namespace,
                    stage: ImportStage::Redirect { work, client, uuid, index },
                },
            )
        } else {
            Self::to_client_role(spec, namespace, work, client, uuid, 0)
        }
    }

    /// Where an event leads. An event that is no answer to [`ImportFlow::command`] leads nowhere.
    /// That the realm is there already is no error, nor is it in such a realm that a role or a
    /// client is. The redirect URIs and roles of a client that is there already are passed over
    /// with it, since no reply tells its UUID, and the status names the client.
    pub fn advance(self, event: &Event) -> (turn: ImportTurn<'a>)
        ensures
            turn.is_of(self.job()),
            turn@ == self.job().step(self.stage(), event@),
    {
        proof {
            use_type_invariant(&self);
        }
        let ImportFlow { spec, namespace, stage } = self;
        let realm = &spec.realm;
        match (stage, event) {
            (ImportStage::Connect(stage), event) => match stage.advance(
                spec.cluster_ref.name.as_str(),
                namespace,
                event,
            ) {
                ConnectTurn::Waiting(stage) => ImportTurn::Waiting(
                    ImportFlow { spec, namespace, stage: ImportStage::Connect(stage) },
                ),
                ConnectTurn::Connected(session) => ImportTurn::Waiting(
                    ImportFlow { spec, namespace, stage: ImportStage::Realm { session } },
                ),
                ConnectTurn::Failed(e) => ImportTurn::Done(Err(e)),
            },
            (ImportStage::Realm { session }, Event::Text(delivery)) => {
                match create_realm_reply(realm.name.as_str(), delivery) {
                    Ok(_) => Self::to_realm_role(spec, namespace, Work::begin(session, true), 0),
                    Err(e) => if delivery.is_conflict() {
                        Self::to_realm_role(spec, namespace, Work::begin(session, false), 0)
                    } else {
                        ImportTurn::Done(Err(e))
                    },
                }
            },
            (ImportStage::RealmRole { work, index }, Event::Text(delivery)) => {
                assert(index < realm.realm_roles.len());
                match create_role_reply(
                    realm.name.as_str(),
                    realm.realm_roles[index].name.as_str(),
                    delivery,
                ) {
                    Ok(_) => Self::to_realm_role(spec, namespace, work, index + 1),
                    Err(e) => if delivery.is_conflict() && !work.realm_created {
                        Self::to_realm_role(spec, namespace, work, index + 1)
                    } else {
                        ImportTurn::Done(Err(e))
                    },
                }
            },
            (ImportStage::Client { work, index }, Event::Json(delivery)) => {
                assert(index < realm.clients.len());
                match create_client_reply(
                    realm.name.as_str(),
                    realm.clients[index].client_id.as_str(),
                    delivery,
                ) {
                    Ok(uuid) => Self::to_redirect(spec, namespace, work, index, uuid, 0),
                    Err(e) => if delivery.is_conflict() && !work.realm_created {
                        Self::to_client(
                            spec,
                            namespace,
                            work.passing(&realm.clients[index]),
                            index + 1,
                        )
                    } else {
                        ImportTurn::Done(Err(e))
                    },
                }
            },
            (ImportStage::Redirect { work, client, uuid, index }, Event::Text(delivery)) => {
                assert(index < realm.clients[client as int].redirect_uris.len());
                match create_redirect_reply(
                    realm.clients[client].redirect_uris[index].as_str(),
                    realm.clients[client].client_id.as_str(),
                    delivery,
                ) {
                    Ok(_) => Self::to_redirect(spec, namespace, work, client, uuid, index + 1),
                    Err(e) => ImportTurn::Done(Err(e)),
                }
            },
            (ImportStage::ClientRole { work, client, uuid, index }, Event::Text(delivery)) => {
                assert(index < realm.clients[client as int].roles.len());
                match create_role_reply(
                    realm.name.as_str(),
                    realm.clients[client].roles[index].name.as_str(),
                    delivery,
                ) {
                    Ok(_) => Self::to_client_role(
                        spec,
                        namespace,
                        work,
                        client,
                        uuid,
                        index + 1,
                    ),
                    Err(e) => if delivery.is_conflict() && !work.realm_created {
                        Self::to_client_role(spec, namespace, work, client, uuid, index + 1)
                    } else {
                        ImportTurn::Done(Err(e))
                    },
                }
            },
            (stage, _) => ImportTurn::Waiting(ImportFlow { spec, namespace, stage }),
        }
    }
}

} // verus!
