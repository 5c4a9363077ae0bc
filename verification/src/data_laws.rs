//! What the views of the data tell: nothing that the operator reads is left out or made up.
use crate::connect::{Command, CommandView, Event, EventView};
use crate::controller::{import_result, any_name, namespace_or_default, ImportFailure};
use crate::crds::{
    ClientImportSpec, ClusterCondition, FerrisKeyClusterSpec, FerrisKeyRealmImport,
    FerrisKeyRealmImportStatus, RoleImportSpec,
};
use crate::credentials::SecretData;
use crate::entities::{
    ClientImport, ClientView, RealmImportSpec, RealmImportStatus, RoleImport, RoleView,
};
use crate::error::{text_result, unit_result, ErrorView, OperatorError};
use crate::http::{
    lookup, HttpRequest, JsonDelivery, JsonDeliveryView, JsonReply, TextDelivery, TextDeliveryView,
};
use crate::json::{optional_text_view, texts_view, Json, JsonView};
use crate::reconcile::resource_view;
use crate::text::{decimal, mentions, mentions_at};
use vstd::prelude::*;

verus! {

// ---- Texts ----

/// Whether an optional text is told as it is.
pub open spec fn tells_optional(told: Option<Seq<char>>, text: Option<String>) -> bool {
    match text {
        Some(text) => told == Some(text@),
        None => told is None,
    }
}

/// Whether texts are told as they are, in their order.
pub open spec fn tells_texts(told: Seq<Seq<char>>, texts: Vec<String>) -> bool {
    told.len() == texts@.len() && forall|i: int| 0 <= i < told.len() ==> told[i] == texts@[i]@
}

/// The number that a sequence of digits stands for.
pub open spec fn number_of(digits: Seq<char>) -> int
    decreases digits.len(),
{
    if digits.len() == 0 {
        0
    } else {
        number_of(digits.drop_last()) * 10 + (digits.last() as int - '0' as int)
    }
}

/// A decimal numeral is made of digits, stands for its number, and has no zero in front unless it
/// is zero itself.
pub proof fn numerals_stand_for_their_number(n: nat)
    ensures
        decimal(n).len() > 0,
        forall|i: int| 0 <= i < decimal(n).len() ==> '0' <= #[trigger] decimal(n)[i] <= '9',
        number_of(decimal(n)) == n,
        n > 0 ==> decimal(n)[0] != '0',
    decreases n,
{
    let s = decimal(n);
    reveal_with_fuel(number_of, 2);
    if n < 10 {
        assert(s.drop_last() =~= Seq::<char>::empty());
    } else {
        numerals_stand_for_their_number(n / 10);
        assert(s.drop_last() =~= decimal(n / 10));
        assert forall|i: int| 0 <= i < s.len() implies '0' <= #[trigger] s[i] <= '9' by {
            if i < s.len() - 1 {
                assert(s[i] == decimal(n / 10)[i]);
            }
        }
        assert(s[0] == decimal(n / 10)[0]);
    }
}

/// A text mentions a part exactly when the part stands in it between some beginning and some end.
pub proof fn mentioning_is_having_as_a_part(s: Seq<char>, part: Seq<char>)
    ensures
        mentions(s, part) <==> exists|before: Seq<char>, after: Seq<char>|
            s == #[trigger] ((before + part) + after),
{
    if mentions(s, part) {
        let i = choose|i: int| #[trigger] mentions_at(s, part, i);
        let before = s.take(i);
        let after = s.skip(i + part.len());
        assert(s =~= (before + part) + after) by {
            assert forall|k: int| 0 <= k < s.len() implies s[k] == ((before + part) + after)[k] by {
                if i <= k < i + part.len() {
                    assert(s.subrange(i, i + part.len())[k - i] == s[k]);
                }
            }
        }
    }
    if exists|before: Seq<char>, after: Seq<char>| s == #[trigger] ((before + part) + after) {
        let (before, after) = choose|before: Seq<char>, after: Seq<char>|
            s == #[trigger] ((before + part) + after);
        let i = before.len() as int;
        assert(s.subrange(i, i + part.len()) =~= part);
        assert(mentions_at(s, part, i));
    }
}

// ---- JSON and HTTP ----

/// A JSON document says what it holds.
pub proof fn documents_say_what_they_hold(json: Json)
    ensures
        match json {
            Json::Null => json@ == JsonView::Null,
            Json::Bool(b) => json@ == JsonView::Bool(b),
            Json::Text(text) => json@ == JsonView::Text(text@),
            Json::Array(items) => json@ is Array && json@->Array_0.len() == items@.len() && forall|
                i: int,
            |
                0 <= i < items@.len() ==> #[trigger] json@->Array_0[i] == items@[i]@,
            Json::Object(members) => json@ is Object && json@->Object_0.len() == members@.len()
                && forall|i: int|
                0 <= i < members@.len() ==> #[trigger] json@->Object_0[i] == (
                    members@[i].0@,
                    members@[i].1@,
                ),
        },
{
}

/// What a text, or none, and a list of texts say as JSON.
pub proof fn texts_say_themselves(text: Seq<char>, texts: Seq<Seq<char>>)
    ensures
        optional_text_view(Some(text)) == JsonView::Text(text),
        optional_text_view(None) == JsonView::Null,
        texts_view(texts) is Array,
        texts_view(texts)->Array_0.len() == texts.len(),
        forall|i: int|
            0 <= i < texts.len() ==> #[trigger] texts_view(texts)->Array_0[i] == JsonView::Text(
                texts[i],
            ),
{
}

/// A request tells its method, its URL, its token and its body.
pub proof fn requests_tell_their_parts(request: HttpRequest)
    ensures
        request@.method == request.method,
        request@.url == request.url@,
        tells_optional(request@.bearer, request.bearer),
        match request.body {
            Some(body) => request@.body == Some(body@),
            None => request@.body is None,
        },
{
}

/// A delivery tells its error, or its status and its body.
pub proof fn deliveries_tell_their_parts(json: JsonDelivery, text: TextDelivery)
    ensures
        match json {
            JsonDelivery::Failed { error } => json@ == JsonDeliveryView::Failed(error@),
            JsonDelivery::Answered { status, body } => match body {
                Ok(bytes) => json@ == JsonDeliveryView::Answered(status@, Ok(bytes@)),
                Err(error) => json@ == JsonDeliveryView::Answered(status@, Err(error@)),
            },
        },
        match text {
            TextDelivery::Failed { error } => text@ == TextDeliveryView::Failed(error@),
            TextDelivery::Answered { status, text: said } => text@ == TextDeliveryView::Answered(
                status@,
                said@,
            ),
        },
{
}

/// A reply tells its members and its debugging text.
pub proof fn replies_tell_their_members(reply: JsonReply)
    ensures
        reply@.debug == reply.debug@,
        reply@.members.len() == reply.members@.len(),
        forall|i: int|
            0 <= i < reply.members@.len() ==> (#[trigger] reply@.members[i]).0
                == reply.members@[i].0@ && tells_optional(
                reply@.members[i].1,
                reply.members@[i].1,
            ),
{
}

/// Looking up a key gives the value of the first entry of that name, and nothing where there is no
/// such entry.
pub proof fn lookups_find_the_first<V>(entries: Seq<(Seq<char>, V)>, key: Seq<char>, i: int)
    ensures
        0 <= i < entries.len() && entries[i].0 == key && (forall|j: int|
            0 <= j < i ==> (#[trigger] entries[j]).0 != key) ==> lookup(entries, key) == Some(
            entries[i].1,
        ),
        (forall|j: int| 0 <= j < entries.len() ==> (#[trigger] entries[j]).0 != key) ==> lookup(
            entries,
            key,
        ) is None,
    decreases entries.len(),
{
    if entries.len() > 0 && entries[0].0 != key {
        let others = entries.drop_first();
        lookups_find_the_first(others, key, i - 1);
        assert forall|j: int| 0 <= j < others.len() implies #[trigger] others[j] == entries[j
            + 1] by {}
        if 0 <= i < entries.len() && entries[i].0 == key {
            assert(others[i - 1] == entries[i]);
        }
    } else if entries.len() > 0 && 0 < i < entries.len() {
        assert(entries[0].0 == key);
    }
}

// ---- Errors and results ----

/// An error tells its kind and its message, and so does a result.
pub proof fn errors_tell_their_message(
    error: OperatorError,
    unit: Result<(), OperatorError>,
    text: Result<String, OperatorError>,
    import: Result<RealmImportStatus, ImportFailure>,
)
    ensures
        error@ == (match error {
            OperatorError::ClusterNotFound { message } => ErrorView::ClusterNotFound(message@),
            OperatorError::InternalServerError { message } => ErrorView::InternalServerError(
                message@,
            ),
            OperatorError::AuthError { message } => ErrorView::AuthError(message@),
            OperatorError::RealmImportError { message } => ErrorView::RealmImportError(message@),
            OperatorError::InvalidSpec { message } => ErrorView::InvalidSpec(message@),
            OperatorError::ApplyApiError { message } => ErrorView::ApplyApiError(message@),
        }),
        match unit {
            Ok(_) => unit_result(unit) is Ok,
            Err(e) => unit_result(unit) == Err::<(), ErrorView>(e@),
        },
        match text {
            Ok(t) => text_result(text) == Ok::<Seq<char>, ErrorView>(t@),
            Err(e) => text_result(text) == Err::<Seq<char>, ErrorView>(e@),
        },
        match import {
            Ok(status) => import_result(import) matches Ok(told) && told == status@,
            Err(failure) => import_result(import) matches Err(told) && told.error
                == failure.error@ && told.text == failure.text@,
        },
{
}

// ---- Resources and specifications ----

/// Whether a role is told as it is.
pub open spec fn tells_role(told: RoleView, role: RoleImport) -> bool {
    &&& told.name == role.name@
    &&& tells_optional(told.description, role.description)
    &&& tells_texts(told.permissions, role.permissions)
}

/// Whether a client is told as it is, with all its roles.
pub open spec fn tells_client(told: ClientView, client: ClientImport) -> bool {
    &&& told.client_id == client.client_id@
    &&& tells_optional(told.name, client.name)
    &&& told.enabled == client.enabled
    &&& told.public_client == client.public_client
    &&& tells_optional(told.secret, client.secret)
    &&& tells_optional(told.protocol, client.protocol)
    &&& tells_texts(told.redirect_uris, client.redirect_uris)
    &&& tells_optional(told.client_type, client.client_type)
    &&& told.direct_access_grants_enabled == client.direct_access_grants_enabled
    &&& told.service_accounts_enabled == client.service_accounts_enabled
    &&& told.roles.len() == client.roles@.len()
    &&& forall|i: int|
        0 <= i < client.roles@.len() ==> tells_role(#[trigger] told.roles[i], client.roles@[i])
}

/// A specification tells its cluster and its realm, with all roles and clients.
pub proof fn specifications_tell_everything(spec: RealmImportSpec)
    ensures
        spec@.cluster == spec.cluster_ref.name@,
        spec@.realm.name == spec.realm.name@,
        tells_optional(spec@.realm.display_name, spec.realm.display_name),
        spec@.realm.enabled == spec.realm.enabled,
        spec@.realm.realm_roles.len() == spec.realm.realm_roles@.len(),
        forall|i: int|
            0 <= i < spec.realm.realm_roles@.len() ==> tells_role(
                #[trigger] spec@.realm.realm_roles[i],
                spec.realm.realm_roles@[i],
            ),
        spec@.realm.clients.len() == spec.realm.clients@.len(),
        forall|i: int|
            0 <= i < spec.realm.clients@.len() ==> tells_client(
                #[trigger] spec@.realm.clients[i],
                spec.realm.clients@[i],
            ),
{
}

/// Whether a role of a resource is the same as a role that is imported.
pub open spec fn same_role(role: RoleImport, asked: RoleImportSpec) -> bool {
    &&& role.name@ == asked.name@
    &&& same_optional(role.description, asked.description)
    &&& same_texts(role.permissions, asked.permissions)
}

/// Whether two optional texts are the same.
pub open spec fn same_optional(a: Option<String>, b: Option<String>) -> bool {
    match (a, b) {
        (Some(a), Some(b)) => a@ == b@,
        (None, None) => true,
        _ => false,
    }
}

/// Whether two lists of texts are the same.
pub open spec fn same_texts(a: Vec<String>, b: Vec<String>) -> bool {
    a@.len() == b@.len() && forall|i: int| 0 <= i < a@.len() ==> (#[trigger] a@[i])@ == b@[i]@
}

/// Whether two lists of roles are the same.
pub open spec fn same_roles(roles: Vec<RoleImport>, asked: Vec<RoleImportSpec>) -> bool {
    roles@.len() == asked@.len() && forall|i: int|
        0 <= i < roles@.len() ==> same_role(#[trigger] roles@[i], asked@[i])
}

/// Whether a client of a resource is the same as a client that is imported.
pub open spec fn same_client(client: ClientImport, asked: ClientImportSpec) -> bool {
    &&& client.client_id@ == asked.client_id@
    &&& same_optional(client.name, asked.name)
    &&& client.enabled == asked.enabled
    &&& client.public_client == asked.public_client
    &&& same_optional(client.secret, asked.secret)
    &&& same_optional(client.protocol, asked.protocol)
    &&& same_texts(client.redirect_uris, asked.redirect_uris)
    &&& same_optional(client.client_type, asked.client_type)
    &&& client.direct_access_grants_enabled == asked.direct_access_grants_enabled
    &&& client.service_accounts_enabled == asked.service_accounts_enabled
    &&& same_roles(client.roles, asked.roles)
}

proof fn equal_optionals(a: Option<String>, b: Option<String>)
    requires
        a.deep_view() == b.deep_view(),
    ensures
        same_optional(a, b),
{
}

proof fn equal_texts(a: Vec<String>, b: Vec<String>)
    requires
        a.deep_view() == b.deep_view(),
    ensures
        same_texts(a, b),
{
    assert(a.deep_view().len() == a@.len());
    assert(b.deep_view().len() == b@.len());
    assert forall|i: int| 0 <= i < a@.len() implies (#[trigger] a@[i])@ == b@[i]@ by {
        assert(a.deep_view()[i] == b.deep_view()[i]);
    }
}

proof fn equal_roles(a: Vec<RoleImport>, b: Vec<RoleImportSpec>)
    requires
        a.deep_view() == b.deep_view(),
    ensures
        same_roles(a, b),
{
    assert(a.deep_view().len() == a@.len());
    assert(b.deep_view().len() == b@.len());
    assert forall|i: int| 0 <= i < a@.len() implies same_role(#[trigger] a@[i], b@[i]) by {
        assert(a.deep_view()[i] == a@[i]@);
        assert(b.deep_view()[i] == b@[i]@);
        equal_optionals(a@[i].description, b@[i].description);
        equal_texts(a@[i].permissions, b@[i].permissions);
    }
}

/// A specification that says the same as a resource asks for the same in every field: what a
/// conversion yields has each field of the resource, each role and each client with all its
/// settings, in their order.
pub proof fn conversion_keeps_every_field(spec: RealmImportSpec, import: FerrisKeyRealmImport)
    requires
        spec@ == import.spec@,
    ensures
        spec.cluster_ref.name@ == import.spec.cluster_ref.name@,
        spec.realm.name@ == import.spec.realm.name@,
        same_optional(spec.realm.display_name, import.spec.realm.display_name),
        spec.realm.enabled == import.spec.realm.enabled,
        same_roles(spec.realm.realm_roles, import.spec.realm.realm_roles),
        spec.realm.clients@.len() == import.spec.realm.clients@.len(),
        forall|i: int|
            0 <= i < spec.realm.clients@.len() ==> same_client(
                #[trigger] spec.realm.clients@[i],
                import.spec.realm.clients@[i],
            ),
{
    let realm = spec.realm;
    let asked = import.spec.realm;
    equal_optionals(realm.display_name, asked.display_name);
    equal_roles(realm.realm_roles, asked.realm_roles);
    assert(realm.clients.deep_view() == asked.clients.deep_view());
    assert(realm.clients.deep_view().len() == realm.clients@.len());
    assert(asked.clients.deep_view().len() == asked.clients@.len());
    assert forall|i: int| 0 <= i < realm.clients@.len() implies same_client(
        #[trigger] realm.clients@[i],
        asked.clients@[i],
    ) by {
        let client = realm.clients@[i];
        let other = asked.clients@[i];
        assert(realm.clients.deep_view()[i] == asked.clients.deep_view()[i]);
        equal_optionals(client.name, other.name);
        equal_optionals(client.secret, other.secret);
        equal_optionals(client.protocol, other.protocol);
        equal_optionals(client.client_type, other.client_type);
        equal_texts(client.redirect_uris, other.redirect_uris);
        equal_roles(client.roles, other.roles);
    }
}

/// A status tells whether it is ready, its message and its phase.
pub proof fn statuses_tell_their_parts(
    status: RealmImportStatus,
    reported: FerrisKeyRealmImportStatus,
    condition: ClusterCondition,
)
    ensures
        status@.ready == status.ready,
        tells_optional(status@.message, status.message),
        tells_optional(status@.phase, status.phase),
        reported@.ready == reported.ready,
        tells_optional(reported@.message, reported.message),
        tells_optional(reported@.phase, reported.phase),
        match reported.conditions {
            Some(conditions) => reported@.conditions matches Some(told) && told.len()
                == conditions@.len() && forall|i: int|
                0 <= i < told.len() ==> #[trigger] told[i] == conditions@[i]@,
            None => reported@.conditions is None,
        },
        condition@.condition_type == condition.condition_type@,
        condition@.status == condition.status@,
        condition@.last_transition_time == condition.last_transition_time@,
        tells_optional(condition@.reason, condition.reason),
        tells_optional(condition@.message, condition.message),
{
}

/// A cluster tells its name and the URL of its API, and a secret its entries.
pub proof fn clusters_and_secrets_tell_their_parts(
    cluster: FerrisKeyClusterSpec,
    secret: SecretData,
)
    ensures
        cluster@.name == cluster.name@,
        cluster@.api_url == cluster.api.api_url@,
        match secret.data {
            Some(entries) => secret@ matches Some(told) && told.len() == entries@.len() && forall|
                i: int,
            |
                0 <= i < told.len() ==> (#[trigger] told[i]).0 == entries@[i].0@ && told[i].1
                    == entries@[i].1@,
            None => secret@ is None,
        },
{
    if let Some(entries) = secret.data {
        let told = secret@->0;
        assert forall|i: int| 0 <= i < told.len() implies (#[trigger] told[i]).0
            == entries@[i].0@ && told[i].1 == entries@[i].1@ by {
            assert(told[i].1 =~= entries@[i].1@);
        }
    }
}

/// Commands and events tell their parts.
pub proof fn commands_and_events_tell_their_parts(command: Command, event: Event)
    ensures
        match command {
            Command::GetCluster { name, namespace } => command@ == CommandView::GetCluster(
                name@,
                namespace@,
            ),
            Command::GetSecret { name, namespace } => command@ == CommandView::GetSecret(
                name@,
                namespace@,
            ),
            Command::CallForJson(request) => command@ == CommandView::CallForJson(request@),
            Command::CallForText(request) => command@ == CommandView::CallForText(request@),
        },
        match event {
            Event::Cluster(Ok(cluster)) => event@ == EventView::Cluster(Ok(cluster@)),
            Event::Cluster(Err(error)) => event@ == EventView::Cluster(Err(error@)),
            Event::Secret(Ok(secret)) => event@ == EventView::Secret(Ok(secret@)),
            Event::Secret(Err(error)) => event@ == EventView::Secret(Err(error@)),
            Event::Json(delivery) => event@ == EventView::Json(delivery@),
            Event::Text(delivery) => event@ == EventView::Text(delivery@),
        },
{
}

/// A resource is known by its own name, else by the prefix of the name that it will get, else by
/// none; it lies in its own namespace, else in the default one; and what it asks for is its
/// specification.
pub proof fn resources_are_known_by_their_metadata(import: FerrisKeyRealmImport)
    ensures
        ({
            let resource = resource_view(import);
            let metadata = import.metadata;
            &&& metadata.name matches Some(name) ==> resource.name == name@
            &&& metadata.name is None ==> (metadata.generate_name matches Some(prefix)
                ==> resource.name == prefix@)
            &&& metadata.name is None && metadata.generate_name is None ==> resource.name.len()
                == 0
            &&& metadata.namespace matches Some(namespace) ==> resource.namespace == namespace@
            &&& metadata.namespace is None ==> resource.namespace == "default"@
            &&& resource.import == import.spec@
            &&& resource.name == any_name(
                metadata.name.deep_view(),
                metadata.generate_name.deep_view(),
            )
            &&& resource.namespace == namespace_or_default(metadata.namespace.deep_view())
        }),
{
}

} // verus!
