//! What each reply, and each thing that was read, leads to: when it counts as a success, and what
//! the error says where it does not.
use crate::api::{
    authenticate_meaning, authenticate_result, create_client_meaning, create_client_result,
    create_realm_result, create_redirect_result, create_role_result, delete_realm_result,
};
use crate::connect::{
    answers, connect_command, connect_step, secret_name_for, CommandView, ConnectStageView,
    ConnectTurnView, EventView,
};
use crate::credentials::{
    base64_decoded, credentials_meaning, credentials_result, secret_entry, SecretView,
};
use crate::crds::ClusterView;
use crate::data_laws::lookups_find_the_first;
use crate::entities::ImportView;
use crate::error::ErrorView;
use crate::http::{
    is_conflict_code, is_status_code, is_success_code, parsed_reply, reply_text, status_text,
    JsonDeliveryView, ReplyView, TextDeliveryView,
};
use crate::request_laws::{logins_send_their_credentials, logs_in};
use crate::services::{cleanup_refusal, import_refusal};
use crate::text::trimming_drops_only_slashes;
use vstd::prelude::*;
use vstd::utf8::{decode_utf8, valid_utf8};

verus! {

// ---- Messages ----

/// The text that these parts make, one after the other.
pub open spec fn joined(parts: Seq<Seq<char>>) -> Seq<char>
    decreases parts.len(),
{
    if parts.len() == 0 {
        Seq::empty()
    } else {
        joined(parts.drop_last()) + parts.last()
    }
}

proof fn join_one_more(parts: Seq<Seq<char>>, part: Seq<char>)
    ensures
        joined(parts.push(part)) == joined(parts) + part,
{
    assert(parts.push(part).drop_last() =~= parts);
}

proof fn join_two(a: Seq<char>, b: Seq<char>)
    ensures
        joined(seq![a, b]) == a + b,
{
    let none = Seq::<Seq<char>>::empty();
    join_one_more(none, a);
    join_one_more(none.push(a), b);
    assert(none.push(a).push(b) =~= seq![a, b]);
    assert(joined(none) + a =~= a);
}

proof fn join_three(a: Seq<char>, b: Seq<char>, c: Seq<char>)
    ensures
        joined(seq![a, b, c]) == a + b + c,
{
    join_two(a, b);
    join_one_more(seq![a, b], c);
    assert(seq![a, b].push(c) =~= seq![a, b, c]);
}

proof fn join_four(a: Seq<char>, b: Seq<char>, c: Seq<char>, d: Seq<char>)
    ensures
        joined(seq![a, b, c, d]) == a + b + c + d,
{
    join_three(a, b, c);
    join_one_more(seq![a, b, c], d);
    assert(seq![a, b, c].push(d) =~= seq![a, b, c, d]);
}

pub(crate) proof fn join_six(
    a: Seq<char>,
    b: Seq<char>,
    c: Seq<char>,
    d: Seq<char>,
    e: Seq<char>,
    f: Seq<char>,
)
    ensures
        joined(seq![a, b, c, d, e, f]) == a + b + c + d + e + f,
{
    join_four(a, b, c, d);
    join_one_more(seq![a, b, c, d], e);
    assert(seq![a, b, c, d].push(e) =~= seq![a, b, c, d, e]);
    join_one_more(seq![a, b, c, d, e], f);
    assert(seq![a, b, c, d, e].push(f) =~= seq![a, b, c, d, e, f]);
}

pub(crate) proof fn join_seven(
    a: Seq<char>,
    b: Seq<char>,
    c: Seq<char>,
    d: Seq<char>,
    e: Seq<char>,
    f: Seq<char>,
    g: Seq<char>,
)
    ensures
        joined(seq![a, b, c, d, e, f, g]) == a + b + c + d + e + f + g,
{
    join_six(a, b, c, d, e, f);
    join_one_more(seq![a, b, c, d, e, f], g);
    assert(seq![a, b, c, d, e, f].push(g) =~= seq![a, b, c, d, e, f, g]);
}

/// Whether a result is an import error whose message consists of these parts.
pub open spec fn fails_import<T>(
    result: Result<T, ErrorView>,
    parts: Seq<Seq<char>>,
) -> bool {
    result matches Err(ErrorView::RealmImportError(message)) && message == joined(parts)
}

/// Whether a result is a login error whose message consists of these parts.
pub open spec fn fails_login<T>(
    result: Result<T, ErrorView>,
    parts: Seq<Seq<char>>,
) -> bool {
    result matches Err(ErrorView::AuthError(message)) && message == joined(parts)
}

// ---- Statuses ----

/// A status has three digits. Success is what lies from 200 to 299, and 409 is a conflict.
pub proof fn codes_are_what_they_are(code: int)
    ensures
        is_status_code(code) <==> 100 <= code && code <= 999,
        is_success_code(code) <==> 200 <= code && code <= 299,
        is_conflict_code(code) <==> code == 409,
        JsonDeliveryView::Answered(code, Err(Seq::empty())).is_conflict() <==> code == 409,
        TextDeliveryView::Answered(code, Seq::empty()).is_conflict() <==> code == 409,
        !TextDeliveryView::Failed(Seq::empty()).is_conflict(),
        !JsonDeliveryView::Failed(Seq::empty()).is_conflict(),
{
}

/// A delivery is a conflict exactly when it was answered 409, whatever else it says.
pub proof fn conflicts_are_answers(json: JsonDeliveryView, text: TextDeliveryView)
    ensures
        json.is_conflict() <==> (json matches JsonDeliveryView::Answered(code, _) && code == 409),
        text.is_conflict() <==> (text matches TextDeliveryView::Answered(code, _) && code == 409),
{
}

// ---- Realms ----

/// Creating a realm succeeds exactly when the reply's code lies from 200 to 299. Any other reply,
/// and a request that could not be sent, is an import error that says which realm, and why.
pub proof fn realms_are_created_by_success_only(realm: Seq<char>, delivery: TextDeliveryView)
    ensures
        create_realm_result(realm, delivery) is Ok <==> (delivery
            matches TextDeliveryView::Answered(code, _) && 200 <= code && code <= 299),
        delivery matches TextDeliveryView::Answered(code, text) ==> code < 200 || 299 < code
            ==> fails_import(
            create_realm_result(realm, delivery),
            seq![
                "Failed to create realm '"@,
                realm,
                "': HTTP "@,
                status_text(code as u16),
                " - "@,
                text,
            ],
        ),
        delivery matches TextDeliveryView::Failed(error) ==> fails_import(
            create_realm_result(realm, delivery),
            seq!["Failed to create realm '"@, realm, "': "@, error],
        ),
{
    match delivery {
        TextDeliveryView::Answered(code, text) => join_six(
            "Failed to create realm '"@,
            realm,
            "': HTTP "@,
            status_text(code as u16),
            " - "@,
            text,
        ),
        TextDeliveryView::Failed(error) => join_four(
            "Failed to create realm '"@,
            realm,
            "': "@,
            error,
        ),
    }
}

/// Deleting a realm succeeds exactly when the reply's code lies from 200 to 299 or is 404. Any
/// other reply, and a request that could not be sent, is an import error that says which realm,
/// and why.
pub proof fn realms_are_deleted_by_success_or_absence(
    realm: Seq<char>,
    delivery: TextDeliveryView,
)
    ensures
        delete_realm_result(realm, delivery) is Ok <==> (delivery
            matches TextDeliveryView::Answered(code, _) && (200 <= code && code <= 299 || code
            == 404)),
        delivery matches TextDeliveryView::Answered(code, text) ==> (code < 200 || 299 < code)
            && code != 404 ==> fails_import(
            delete_realm_result(realm, delivery),
            seq![
                "Failed to delete realm '"@,
                realm,
                "': HTTP "@,
                status_text(code as u16),
                " - "@,
                text,
            ],
        ),
        delivery matches TextDeliveryView::Failed(error) ==> fails_import(
            delete_realm_result(realm, delivery),
            seq!["Failed to delete realm '"@, realm, "': "@, error],
        ),
{
    match delivery {
        TextDeliveryView::Answered(code, text) => join_six(
            "Failed to delete realm '"@,
            realm,
            "': HTTP "@,
            status_text(code as u16),
            " - "@,
            text,
        ),
        TextDeliveryView::Failed(error) => join_four(
            "Failed to delete realm '"@,
            realm,
            "': "@,
            error,
        ),
    }
}

// ---- Roles and redirect URIs ----

/// Creating a role succeeds exactly when the reply's code lies from 200 to 299. Any other reply,
/// and a request that could not be sent, is an import error that says which role, and why.
pub proof fn roles_are_created_by_success_only(
    realm: Seq<char>,
    role: Seq<char>,
    delivery: TextDeliveryView,
)
    ensures
        create_role_result(realm, role, delivery) is Ok <==> (delivery
            matches TextDeliveryView::Answered(code, _) && 200 <= code && code <= 299),
        delivery matches TextDeliveryView::Answered(code, text) ==> code < 200 || 299 < code
            ==> fails_import(
            create_role_result(realm, role, delivery),
            seq![
                "Failed to create role '"@,
                role,
                "': HTTP "@,
                status_text(code as u16),
                " - "@,
                text,
            ],
        ),
        delivery matches TextDeliveryView::Failed(error) ==> fails_import(
            create_role_result(realm, role, delivery),
            seq!["Failed to create role '"@, role, "' in realm '"@, realm, "': "@, error],
        ),
{
    match delivery {
        TextDeliveryView::Answered(code, text) => join_six(
            "Failed to create role '"@,
            role,
            "': HTTP "@,
            status_text(code as u16),
            " - "@,
            text,
        ),
        TextDeliveryView::Failed(error) => join_six(
            "Failed to create role '"@,
            role,
            "' in realm '"@,
            realm,
            "': "@,
            error,
        ),
    }
}

/// A redirect URI is accepted exactly when the reply's code lies from 200 to 299, and refused by
/// any other reply, which is no error. A request that could not be sent is one.
pub proof fn redirects_are_accepted_or_refused(
    uri: Seq<char>,
    client_id: Seq<char>,
    delivery: TextDeliveryView,
)
    ensures
        delivery matches TextDeliveryView::Answered(code, _) ==> create_redirect_result(
            uri,
            client_id,
            delivery,
        ) == Ok::<bool, ErrorView>(200 <= code && code <= 299),
        delivery matches TextDeliveryView::Failed(error) ==> fails_import(
            create_redirect_result(uri, client_id, delivery),
            seq![
                "Failed to create redirect URI '"@,
                uri,
                "' for client '"@,
                client_id,
                "': "@,
                error,
            ],
        ),
{
    if let TextDeliveryView::Failed(error) = delivery {
        join_six(
            "Failed to create redirect URI '"@,
            uri,
            "' for client '"@,
            client_id,
            "': "@,
            error,
        );
    }
}

// ---- JSON replies ----

/// Whether the first member of this name in a reply is this text.
pub open spec fn first_is_text(reply: ReplyView, name: Seq<char>, text: Seq<char>) -> bool {
    exists|i: int|
        {
            &&& 0 <= i < reply.members.len()
            &&& #[trigger] reply.members[i] == (name, Some(text))
            &&& forall|j: int| 0 <= j < i ==> (#[trigger] reply.members[j]).0 != name
        }
}

/// The text of a member is that of the first member of the name, where it is a text at all.
pub proof fn texts_are_those_of_first_members(reply: ReplyView, name: Seq<char>, text: Seq<char>)
    ensures
        reply_text(reply, name) == Some(text) <==> first_is_text(reply, name, text),
{
    let members = reply.members;
    if exists|i: int| 0 <= i < members.len() && (#[trigger] members[i]).0 == name {
        let i = first_index(members, name);
        lookups_find_the_first(members, name, i);
        if first_is_text(reply, name, text) {
            let k = choose|k: int|
                {
                    &&& 0 <= k < members.len()
                    &&& #[trigger] members[k] == (name, Some(text))
                    &&& forall|j: int| 0 <= j < k ==> (#[trigger] members[j]).0 != name
                };
            if i < k {
                assert(members[i].0 != name);
            } else if k < i {
                assert(members[k].0 != name);
            }
        }
        if members[i].1 == Some(text) {
            assert(members[i] == (name, Some(text)));
        }
    } else {
        lookups_find_the_first(members, name, 0);
    }
}

/// The index of the first entry of a name.
proof fn first_index<V>(entries: Seq<(Seq<char>, V)>, name: Seq<char>) -> (i: int)
    requires
        exists|i: int| 0 <= i < entries.len() && (#[trigger] entries[i]).0 == name,
    ensures
        0 <= i < entries.len(),
        entries[i].0 == name,
        forall|j: int| 0 <= j < i ==> (#[trigger] entries[j]).0 != name,
    decreases entries.len(),
{
    if entries[0].0 == name {
        0
    } else {
        let others = entries.drop_first();
        let k = choose|k: int| 0 <= k < entries.len() && (#[trigger] entries[k]).0 == name;
        assert(others[k - 1] == entries[k]);
        let i = first_index(others, name);
        assert(others[i] == entries[i + 1]);
        assert forall|j: int| 0 <= j < i + 1 implies (#[trigger] entries[j]).0 != name by {
            if j > 0 {
                assert(others[j - 1] == entries[j]);
            }
        }
        i + 1
    }
}

/// A login yields a token exactly when its reply has a code from 200 to 299, can be read as JSON,
/// and its first member `token` is a text that is not empty; the token is that text.
pub proof fn logins_yield_the_token_of_the_reply(delivery: JsonDeliveryView, token: Seq<char>)
    ensures
        authenticate_result(delivery) == Ok::<Seq<char>, ErrorView>(token) <==> (delivery
            matches JsonDeliveryView::Answered(code, Ok(bytes)) && 200 <= code && code <= 299
            && token.len() > 0 && (parsed_reply(bytes) matches Some(reply) && first_is_text(
            reply,
            "token"@,
            token,
        ))),
{
    if let JsonDeliveryView::Answered(code, Ok(bytes)) = delivery {
        if let Some(reply) = parsed_reply(bytes) {
            texts_are_those_of_first_members(reply, "token"@, token);
        }
    }
}

/// A login that yields no token is a login error that says why: the request could not be sent, the
/// reply could not be read, the login was refused, or the reply holds no token.
pub proof fn failed_logins_say_why(delivery: JsonDeliveryView)
    ensures
        authenticate_result(delivery) is Err ==> authenticate_result(delivery)->Err_0 is AuthError,
        delivery matches JsonDeliveryView::Failed(error) ==> fails_login(
            authenticate_result(delivery),
            seq!["Authentication request failed: "@, error],
        ),
        delivery matches JsonDeliveryView::Answered(_, Err(error)) ==> fails_login(
            authenticate_result(delivery),
            seq!["Failed to parse auth response: "@, error],
        ),
        delivery matches JsonDeliveryView::Answered(_, Ok(bytes)) ==> parsed_reply(bytes) is None
            ==> fails_login(
            authenticate_result(delivery),
            seq!["Failed to parse auth response: "@, "error decoding response body"@],
        ),
        delivery matches JsonDeliveryView::Answered(code, Ok(bytes)) ==> (parsed_reply(bytes)
            matches Some(reply) ==> {
            &&& code < 200 || 299 < code ==> fails_login(
                authenticate_result(delivery),
                seq![
                    "Authentication failed with status "@,
                    status_text(code as u16),
                    ": "@,
                    reply.debug,
                ],
            )
            &&& 200 <= code && code <= 299 && authenticate_result(delivery) is Err
                ==> authenticate_result(delivery) == Err::<Seq<char>, ErrorView>(
                ErrorView::AuthError("No token received from authentication"@),
            )
        }),
{
    match delivery {
        JsonDeliveryView::Failed(error) => join_two("Authentication request failed: "@, error),
        JsonDeliveryView::Answered(code, Err(error)) => join_two(
            "Failed to parse auth response: "@,
            error,
        ),
        JsonDeliveryView::Answered(code, Ok(bytes)) => match parsed_reply(bytes) {
            None => join_two(
                "Failed to parse auth response: "@,
                "error decoding response body"@,
            ),
            Some(reply) => join_four(
                "Authentication failed with status "@,
                status_text(code as u16),
                ": "@,
                reply.debug,
            ),
        },
    }
}

/// Creating a client yields a UUID exactly when the reply has a code from 200 to 299, can be read
/// as JSON, and its first member `id` is a text; the UUID is that text.
pub proof fn clients_get_the_uuid_of_the_reply(
    realm: Seq<char>,
    client_id: Seq<char>,
    delivery: JsonDeliveryView,
    uuid: Seq<char>,
)
    ensures
        create_client_result(realm, client_id, delivery) == Ok::<Seq<char>, ErrorView>(uuid)
            <==> (delivery matches JsonDeliveryView::Answered(code, Ok(bytes)) && 200 <= code
            && code <= 299 && (parsed_reply(bytes) matches Some(reply) && first_is_text(
            reply,
            "id"@,
            uuid,
        ))),
{
    if let JsonDeliveryView::Answered(code, Ok(bytes)) = delivery {
        if let Some(reply) = parsed_reply(bytes) {
            texts_are_those_of_first_members(reply, "id"@, uuid);
        }
    }
}

/// A client that gets no UUID is an import error that says which client, and why: the request could
/// not be sent, the reply could not be read, the client was refused, or the reply holds no UUID.
pub proof fn failed_clients_say_why(
    realm: Seq<char>,
    client_id: Seq<char>,
    delivery: JsonDeliveryView,
)
    ensures
        ({
            let result = create_client_result(realm, client_id, delivery);
            &&& result is Err ==> result->Err_0 is RealmImportError
            &&& delivery matches JsonDeliveryView::Failed(error) ==> fails_import(
                result,
                seq![
                    "Failed to create client '"@,
                    client_id,
                    "' in realm '"@,
                    realm,
                    "': "@,
                    error,
                ],
            )
            &&& delivery matches JsonDeliveryView::Answered(_, body) ==> (body is Err
                || parsed_reply(body->Ok_0) is None ==> fails_import(
                result,
                seq!["Failed to parse response creating client '"@, client_id, "'"@],
            ))
            &&& delivery matches JsonDeliveryView::Answered(code, Ok(bytes)) ==> (parsed_reply(
                bytes,
            ) matches Some(reply) ==> {
                &&& code < 200 || 299 < code ==> fails_import(
                    result,
                    seq![
                        "Failed to create client '"@,
                        client_id,
                        "': HTTP "@,
                        status_text(code as u16),
                        " - "@,
                        reply.debug,
                    ],
                )
                &&& 200 <= code && code <= 299 && result is Err ==> fails_import(
                    result,
                    seq!["No client UUID returned for client '"@, client_id, "'"@],
                )
            })
        }),
{
    join_three("Failed to parse response creating client '"@, client_id, "'"@);
    join_three("No client UUID returned for client '"@, client_id, "'"@);
    match delivery {
        JsonDeliveryView::Failed(error) => join_six(
            "Failed to create client '"@,
            client_id,
            "' in realm '"@,
            realm,
            "': "@,
            error,
        ),
        JsonDeliveryView::Answered(code, Ok(bytes)) => {
            if let Some(reply) = parsed_reply(bytes) {
                join_six(
                    "Failed to create client '"@,
                    client_id,
                    "': HTTP "@,
                    status_text(code as u16),
                    " - "@,
                    reply.debug,
                );
            }
        },
        _ => {},
    }
}

/// What replies mean where they have been read: the token or UUID of a success, and an error for
/// any code outside 200 to 299.
pub proof fn read_replies_mean_what_they_say(
    client_id: Seq<char>,
    code: int,
    reply: ReplyView,
    text: Seq<char>,
)
    ensures
        authenticate_meaning(code, reply) == Ok::<Seq<char>, ErrorView>(text) <==> 200 <= code
            && code <= 299 && text.len() > 0 && first_is_text(reply, "token"@, text),
        create_client_meaning(client_id, code, reply) == Ok::<Seq<char>, ErrorView>(text) <==> 200
            <= code && code <= 299 && first_is_text(reply, "id"@, text),
{
    texts_are_those_of_first_members(reply, "token"@, text);
    texts_are_those_of_first_members(reply, "id"@, text);
}

// ---- Credentials ----

/// Whether the first entry under a key is base64 of this text in UTF-8.
pub open spec fn first_encodes(
    entries: Seq<(Seq<char>, Seq<u8>)>,
    key: Seq<char>,
    text: Seq<char>,
) -> bool {
    exists|i: int|
        {
            &&& 0 <= i < entries.len()
            &&& (#[trigger] entries[i]).0 == key
            &&& forall|j: int| 0 <= j < i ==> (#[trigger] entries[j]).0 != key
            &&& base64_decoded(entries[i].1) matches Some(bytes) && valid_utf8(bytes)
                && decode_utf8(bytes) == text
        }
}

/// A secret holds a text under a key exactly when its first entry under that key encodes the text.
pub proof fn secrets_hold_what_they_encode(
    secret: SecretView,
    key: Seq<char>,
    text: Seq<char>,
)
    ensures
        secret_entry(secret, key) == Some(text) <==> (secret matches Some(entries)
            && first_encodes(entries, key, text)),
{
    if let Some(entries) = secret {
        if exists|i: int| 0 <= i < entries.len() && (#[trigger] entries[i]).0 == key {
            let i = first_index(entries, key);
            lookups_find_the_first(entries, key, i);
            if first_encodes(entries, key, text) {
                let k = choose|k: int|
                    {
                        &&& 0 <= k < entries.len()
                        &&& (#[trigger] entries[k]).0 == key
                        &&& forall|j: int| 0 <= j < k ==> (#[trigger] entries[j]).0 != key
                        &&& base64_decoded(entries[k].1) matches Some(bytes) && valid_utf8(bytes)
                            && decode_utf8(bytes) == text
                    };
                if i < k {
                    assert(entries[i].0 != key);
                } else if k < i {
                    assert(entries[k].0 != key);
                }
            }
        } else {
            lookups_find_the_first(entries, key, 0);
        }
    }
}

/// The credentials in a secret are the texts under `username` and `password`. Without a user name
/// it is `admin`; without a password there are no credentials.
pub proof fn credentials_are_those_of_the_secret(
    secret: SecretView,
    username: Option<Seq<char>>,
    password: Option<Seq<char>>,
)
    ensures
        credentials_result(secret) == credentials_meaning(
            secret_entry(secret, "username"@),
            secret_entry(secret, "password"@),
        ),
        credentials_meaning(username, password) is Ok <==> password is Some,
        username is Some && password is Some ==> credentials_meaning(username, password) == Ok::<
            (Seq<char>, Seq<char>),
            ErrorView,
        >((username->0, password->0)),
        username is None && password is Some ==> credentials_meaning(username, password) == Ok::<
            (Seq<char>, Seq<char>),
            ErrorView,
        >(("admin"@, password->0)),
        password is None ==> credentials_meaning(username, password) == Err::<
            (Seq<char>, Seq<char>),
            ErrorView,
        >(ErrorView::InternalServerError("Admin password not found in secret"@)),
{
}

// ---- Getting at a cluster ----

/// An event answers a command exactly when it tells of the same kind of thing.
pub proof fn answers_are_of_the_same_kind(event: EventView, command: CommandView)
    ensures
        answers(event, command) <==> {
            ||| command is GetCluster && event is Cluster
            ||| command is GetSecret && event is Secret
            ||| command is CallForJson && event is Json
            ||| command is CallForText && event is Text
        },
{
}

/// The way to a cluster's API leads over the cluster itself, its administrator's secret in the same
/// namespace, and a login with the credentials in that secret.
pub proof fn clusters_are_reached_by_cluster_secret_and_login(
    cluster: Seq<char>,
    namespace: Seq<char>,
    api_url: Seq<char>,
    secret_name: Seq<char>,
    username: Seq<char>,
    password: Seq<char>,
)
    ensures
        connect_command(cluster, namespace, ConnectStageView::Cluster) == CommandView::GetCluster(
            cluster,
            namespace,
        ),
        connect_command(cluster, namespace, ConnectStageView::Secret { api_url, secret_name })
            == CommandView::GetSecret(secret_name, namespace),
        connect_command(
            cluster,
            namespace,
            ConnectStageView::Login { api_url, username, password },
        ) matches CommandView::CallForJson(request) && logs_in(
            request,
            api_url,
            username,
            password,
        ),
{
    logins_send_their_credentials(api_url, username, password);
}

/// A cluster that was read leads to the secret that is named after it, and to the URL of its API
/// without slashes at its end. One that could not be read ends the way with an error that says
/// which cluster, where, and why.
pub proof fn clusters_lead_to_their_secret(
    cluster: Seq<char>,
    namespace: Seq<char>,
    found: ClusterView,
    error: Seq<char>,
)
    ensures
        connect_step(
            cluster,
            namespace,
            ConnectStageView::Cluster,
            EventView::Cluster(Ok(found)),
        ) matches ConnectTurnView::Waiting(ConnectStageView::Secret { api_url, secret_name }) && {
            &&& secret_name == joined(seq!["ferriskey-admin-"@, found.name])
            &&& api_url.is_prefix_of(found.api_url)
            &&& api_url.len() > 0 ==> api_url.last() != '/'
            &&& forall|i: int| api_url.len() <= i < found.api_url.len() ==> found.api_url[i] == '/'
        },
        connect_step(
            cluster,
            namespace,
            ConnectStageView::Cluster,
            EventView::Cluster(Err(error)),
        ) matches ConnectTurnView::Failed(ErrorView::ClusterNotFound(message)) && message
            == joined(
            seq![
                "FerrisKeyCluster '"@,
                cluster,
                "' not found in namespace '"@,
                namespace,
                "': "@,
                error,
            ],
        ),
        secret_name_for(found.name) == joined(seq!["ferriskey-admin-"@, found.name]),
{
    trimming_drops_only_slashes(found.api_url);
    join_two("ferriskey-admin-"@, found.name);
    join_six(
        "FerrisKeyCluster '"@,
        cluster,
        "' not found in namespace '"@,
        namespace,
        "': "@,
        error,
    );
}

/// A secret that was read leads to a login with its credentials, to the same API. One that could
/// not be read, or that holds no password, ends the way with an error.
pub proof fn secrets_lead_to_a_login(
    cluster: Seq<char>,
    namespace: Seq<char>,
    api_url: Seq<char>,
    secret_name: Seq<char>,
    secret: SecretView,
    error: Seq<char>,
)
    ensures
        ({
            let stage = ConnectStageView::Secret { api_url, secret_name };
            let turn = connect_step(cluster, namespace, stage, EventView::Secret(Ok(secret)));
            let username = secret_entry(secret, "username"@);
            &&& match secret_entry(secret, "password"@) {
                Some(password) => turn matches ConnectTurnView::Waiting(ConnectStageView::Login {
                    api_url: url,
                    username: name,
                    password: word,
                }) && url == api_url && word == password && (if username is Some {
                    name == username->0
                } else {
                    name == "admin"@
                }),
                None => turn == ConnectTurnView::Failed(
                    ErrorView::InternalServerError("Admin password not found in secret"@),
                ),
            }
            &&& connect_step(cluster, namespace, stage, EventView::Secret(Err(error)))
                matches ConnectTurnView::Failed(ErrorView::InternalServerError(message))
                && message == joined(
                seq!["Admin secret '"@, secret_name, "' not found: "@, error],
            )
        }),
{
    join_four("Admin secret '"@, secret_name, "' not found: "@, error);
}

/// A login that yields a token connects to the same API with that token, and any other ends the way
/// with the login's error.
pub proof fn logins_connect_with_their_token(
    cluster: Seq<char>,
    namespace: Seq<char>,
    api_url: Seq<char>,
    username: Seq<char>,
    password: Seq<char>,
    delivery: JsonDeliveryView,
)
    ensures
        ({
            let turn = connect_step(
                cluster,
                namespace,
                ConnectStageView::Login { api_url, username, password },
                EventView::Json(delivery),
            );
            match authenticate_result(delivery) {
                Ok(token) => turn matches ConnectTurnView::Connected(session) && session.api_url
                    == api_url && session.token == token,
                Err(error) => turn == ConnectTurnView::Failed(error),
            }
        }),
{
}

// ---- Specifications ----

/// An import is refused exactly when the name of the realm or that of the cluster is empty, a
/// cleanup exactly when that of the realm is. The refusal says which, the realm first.
pub proof fn empty_names_are_refused(import: ImportView)
    ensures
        import_refusal(import) is None <==> import.realm.name.len() > 0 && import.cluster.len()
            > 0,
        cleanup_refusal(import) is None <==> import.realm.name.len() > 0,
        import.realm.name.len() == 0 ==> import_refusal(import) == Some(
            ErrorView::InvalidSpec("Realm name cannot be empty"@),
        ) && cleanup_refusal(import) == Some(
            ErrorView::InvalidSpec("Realm name cannot be empty"@),
        ),
        import.realm.name.len() > 0 && import.cluster.len() == 0 ==> import_refusal(import)
            == Some(ErrorView::InvalidSpec("Cluster reference name cannot be empty"@)),
{
}

} // verus!
