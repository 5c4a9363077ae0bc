//! What each request to the API tells, in terms of what it is made from.
use crate::api::{
    authenticate_call, create_client_call, create_realm_call, create_redirect_call,
    create_role_call, delete_realm_call,
};
use crate::connect::SessionView;
use crate::crds::{ConditionView, ImportStatusView};
use crate::entities::{ClientView, RealmView, RoleView};
use crate::http::{Method, RequestView};
use crate::json::{texts_view, JsonView};
use crate::laws::{bodies_have_distinct_names, has_distinct_names};
use vstd::prelude::*;

verus! {

// ---- JSON and paths ----

/// Whether a JSON object has this value under this name, and no other value under it.
pub open spec fn says(json: JsonView, name: Seq<char>, value: JsonView) -> bool {
    json matches JsonView::Object(members) && members.contains((name, value)) && (forall|i: int|
        0 <= i < members.len() && (#[trigger] members[i]).0 == name ==> members[i].1 == value)
}

/// Whether a JSON object has nothing under this name.
pub open spec fn is_silent_on(json: JsonView, name: Seq<char>) -> bool {
    json matches JsonView::Object(members) && (forall|i: int|
        0 <= i < members.len() ==> (#[trigger] members[i]).0 != name)
}

/// Whether a JSON object says this text under this name, or `null` where there is none.
pub open spec fn says_text(json: JsonView, name: Seq<char>, text: Option<Seq<char>>) -> bool {
    match text {
        Some(text) => says(json, name, JsonView::Text(text)),
        None => says(json, name, JsonView::Null),
    }
}

/// Whether a JSON object says these texts, in their order, under this name.
pub open spec fn says_texts(json: JsonView, name: Seq<char>, texts: Seq<Seq<char>>) -> bool {
    exists|items: Seq<JsonView>|
        {
            &&& #[trigger] says(json, name, JsonView::Array(items))
            &&& items.len() == texts.len()
            &&& forall|i: int| 0 <= i < texts.len() ==> items[i] == JsonView::Text(texts[i])
        }
}

/// The number of members of a JSON object.
pub open spec fn member_count(json: JsonView) -> int {
    match json {
        JsonView::Object(members) => members.len() as int,
        _ => 0,
    }
}

/// The path that leads through these segments, each after a slash.
pub open spec fn path(segments: Seq<Seq<char>>) -> Seq<char>
    decreases segments.len(),
{
    if segments.len() == 0 {
        Seq::empty()
    } else {
        path(segments.drop_last()) + (seq!['/'] + segments.last())
    }
}

/// In an object whose names are distinct, each member says its value.
pub(crate) proof fn members_are_said(json: JsonView, i: int)
    requires
        json is Object,
        has_distinct_names(json),
        0 <= i < json->Object_0.len(),
    ensures
        says(json, json->Object_0[i].0, json->Object_0[i].1),
{
    let members = json->Object_0;
    assert(members.contains(members[i]));
    assert forall|j: int| 0 <= j < members.len() && (#[trigger] members[j]).0
        == members[i].0 implies members[j].1 == members[i].1 by {
        if j < i {
            assert(members[j].0 != members[i].0);
        } else if i < j {
            assert(members[i].0 != members[j].0);
        }
    }
}

/// The bodies that create a realm, a client and a role have distinct names.
proof fn bodies_are_distinct(
    api_url: Seq<char>,
    token: Seq<char>,
    realm: RealmView,
    client: ClientView,
    uuid: Option<Seq<char>>,
    role: RoleView,
)
    ensures
        has_distinct_names(
            create_realm_call(
                api_url,
                token,
                realm.name,
                realm.display_name,
                realm.enabled,
            ).body->0,
        ),
        has_distinct_names(create_client_call(api_url, token, realm.name, client).body->0),
        has_distinct_names(create_role_call(api_url, token, realm.name, uuid, role).body->0),
{
    let none: Seq<char> = Seq::empty();
    bodies_have_distinct_names(
        api_url,
        token,
        none,
        none,
        realm,
        client,
        uuid,
        role,
        none,
        ImportStatusView { ready: false, message: None, phase: None, conditions: None },
        ConditionView {
            condition_type: none,
            status: none,
            last_transition_time: none,
            reason: None,
            message: None,
        },
    );
}

/// Some client.
spec fn any_client() -> ClientView {
    ClientView {
        client_id: Seq::empty(),
        name: None,
        enabled: false,
        public_client: false,
        secret: None,
        protocol: None,
        redirect_uris: Seq::empty(),
        client_type: None,
        direct_access_grants_enabled: false,
        service_accounts_enabled: false,
        roles: Seq::empty(),
    }
}

/// Some role.
spec fn any_role() -> RoleView {
    RoleView { name: Seq::empty(), description: None, permissions: Seq::empty() }
}

/// Some realm of this name.
spec fn any_realm(name: Seq<char>) -> RealmView {
    RealmView {
        name,
        display_name: None,
        enabled: false,
        realm_roles: Seq::empty(),
        clients: Seq::empty(),
    }
}

proof fn path_of_one(a: Seq<char>)
    ensures
        path(seq![a]) == seq!['/'] + a,
{
    reveal_with_fuel(path, 2);
    assert(seq![a].drop_last() =~= Seq::<Seq<char>>::empty());
    assert(path(seq![a]) =~= seq!['/'] + a);
}

proof fn path_goes_on(segments: Seq<Seq<char>>, a: Seq<char>)
    ensures
        path(segments.push(a)) == path(segments) + (seq!['/'] + a),
{
    assert(segments.push(a).drop_last() =~= segments);
}

// ---- What requests are for ----

/// Whether a request logs in with these credentials: it posts them, without a token, to where the
/// master realm authenticates.
pub open spec fn logs_in(
    request: RequestView,
    api_url: Seq<char>,
    username: Seq<char>,
    password: Seq<char>,
) -> bool {
    &&& request.method == Method::Post
    &&& request.url == api_url + path(
        seq!["realms"@, "master"@, "login-actions"@, "authenticate"@],
    )
    &&& request.bearer is None
    &&& request.body matches Some(body) && {
        &&& says(body, "username"@, JsonView::Text(username))
        &&& says(body, "password"@, JsonView::Text(password))
        &&& member_count(body) == 2
    }
}

/// Whether a request posts with a session's token to this path of the session's API.
pub open spec fn posts_to(
    request: RequestView,
    session: SessionView,
    segments: Seq<Seq<char>>,
) -> bool {
    &&& request.method == Method::Post
    &&& request.url == session.api_url + path(segments)
    &&& request.bearer == Some(session.token)
}

/// Whether a request creates a realm: its name, its display name if it has one, and whether it is
/// enabled.
pub open spec fn creates_realm(
    request: RequestView,
    session: SessionView,
    realm: RealmView,
) -> bool {
    &&& posts_to(request, session, seq!["realms"@])
    &&& request.body matches Some(body) && {
        &&& says(body, "name"@, JsonView::Text(realm.name))
        &&& says(body, "enabled"@, JsonView::Bool(realm.enabled))
        &&& match realm.display_name {
            Some(display_name) => says(body, "displayName"@, JsonView::Text(display_name))
                && member_count(body) == 3,
            None => is_silent_on(body, "displayName"@) && member_count(body) == 2,
        }
    }
}

/// Whether a request creates a client in a realm, with all of its settings. What the client leaves
/// open is filled in: its ID for its name, OpenID Connect for its protocol, and a type that fits
/// whether it is public. A secret is sent only where the client has one.
pub open spec fn creates_client(
    request: RequestView,
    session: SessionView,
    realm: Seq<char>,
    client: ClientView,
) -> bool {
    &&& posts_to(request, session, seq!["realms"@, realm, "clients"@])
    &&& request.body matches Some(body) && {
        &&& says(body, "clientId"@, JsonView::Text(client.client_id))
        &&& match client.name {
            Some(name) => says(body, "name"@, JsonView::Text(name)),
            None => says(body, "name"@, JsonView::Text(client.client_id)),
        }
        &&& says(body, "enabled"@, JsonView::Bool(client.enabled))
        &&& says(body, "publicClient"@, JsonView::Bool(client.public_client))
        &&& match client.client_type {
            Some(client_type) => says(body, "clientType"@, JsonView::Text(client_type)),
            None => if client.public_client {
                says(body, "clientType"@, JsonView::Text("public"@))
            } else {
                says(body, "clientType"@, JsonView::Text("confidential"@))
            },
        }
        &&& match client.protocol {
            Some(protocol) => says(body, "protocol"@, JsonView::Text(protocol)),
            None => says(body, "protocol"@, JsonView::Text("openid-connect"@)),
        }
        &&& says(
            body,
            "directAccessGrantsEnabled"@,
            JsonView::Bool(client.direct_access_grants_enabled),
        )
        &&& says(
            body,
            "serviceAccountsEnabled"@,
            JsonView::Bool(client.service_accounts_enabled),
        )
        &&& match client.secret {
            Some(secret) => says(body, "secret"@, JsonView::Text(secret)) && member_count(body)
                == 9,
            None => is_silent_on(body, "secret"@) && member_count(body) == 8,
        }
    }
}

/// Whether a request allows the client with this UUID to redirect to a URI.
pub open spec fn allows_redirect(
    request: RequestView,
    session: SessionView,
    realm: Seq<char>,
    uuid: Seq<char>,
    uri: Seq<char>,
) -> bool {
    &&& posts_to(request, session, seq!["realms"@, realm, "clients"@, uuid, "redirects"@])
    &&& request.body matches Some(body) && says(body, "redirectUri"@, JsonView::Text(uri))
        && member_count(body) == 1
}

/// Whether a request creates a role, with its description and all its permissions in their order:
/// a role of the client with this UUID, or a role of the realm where no UUID is given.
pub open spec fn creates_role(
    request: RequestView,
    session: SessionView,
    realm: Seq<char>,
    uuid: Option<Seq<char>>,
    role: RoleView,
) -> bool {
    &&& match uuid {
        Some(uuid) => posts_to(
            request,
            session,
            seq!["realms"@, realm, "clients"@, uuid, "roles"@],
        ),
        None => posts_to(request, session, seq!["realms"@, realm, "roles"@]),
    }
    &&& request.body matches Some(body) && {
        &&& says(body, "name"@, JsonView::Text(role.name))
        &&& says_text(body, "description"@, role.description)
        &&& says_texts(body, "permissions"@, role.permissions)
        &&& member_count(body) == 3
    }
}

/// Whether a request deletes a realm: a DELETE to the realm's path with the session's token.
pub open spec fn deletes_realm(
    request: RequestView,
    session: SessionView,
    realm: Seq<char>,
) -> bool {
    &&& request.method == Method::Delete
    &&& request.url == session.api_url + path(seq!["realms"@, realm])
    &&& request.bearer == Some(session.token)
    &&& request.body is None
}

// ---- Laws ----

/// A login sends the credentials that it is given, and to whom they are meant.
pub proof fn logins_send_their_credentials(
    api_url: Seq<char>,
    username: Seq<char>,
    password: Seq<char>,
)
    ensures
        logs_in(authenticate_call(api_url, username, password), api_url, username, password),
{
    let request = authenticate_call(api_url, username, password);
    let body = request.body->0;
    reveal_strlit("/realms/master/login-actions/authenticate");
    reveal_strlit("realms");
    reveal_strlit("master");
    reveal_strlit("login-actions");
    reveal_strlit("authenticate");
    let one = seq!["realms"@];
    let two = one.push("master"@);
    let three = two.push("login-actions"@);
    path_of_one("realms"@);
    path_goes_on(one, "master"@);
    path_goes_on(two, "login-actions"@);
    path_goes_on(three, "authenticate"@);
    assert(three.push("authenticate"@) =~= seq![
        "realms"@,
        "master"@,
        "login-actions"@,
        "authenticate"@,
    ]);
    assert(path(three.push("authenticate"@))
        =~= "/realms/master/login-actions/authenticate"@);
    login_names_are_distinct(api_url, username, password);
    members_are_said(body, 0);
    members_are_said(body, 1);
}

proof fn login_names_are_distinct(api_url: Seq<char>, username: Seq<char>, password: Seq<char>)
    ensures
        has_distinct_names(authenticate_call(api_url, username, password).body->0),
{
    reveal_strlit("username");
    reveal_strlit("password");
    assert("username"@[0] != "password"@[0]);
}

/// The path of a realm, and the paths under it.
proof fn realm_paths(api_url: Seq<char>, realm: Seq<char>, uuid: Seq<char>)
    ensures
        api_url + "/realms"@ == api_url + path(seq!["realms"@]),
        api_url + "/realms/"@ + realm == api_url + path(seq!["realms"@, realm]),
        api_url + "/realms/"@ + realm + "/clients"@ == api_url + path(
            seq!["realms"@, realm, "clients"@],
        ),
        api_url + "/realms/"@ + realm + "/roles"@ == api_url + path(
            seq!["realms"@, realm, "roles"@],
        ),
        api_url + "/realms/"@ + realm + "/clients/"@ + uuid + "/redirects"@ == api_url + path(
            seq!["realms"@, realm, "clients"@, uuid, "redirects"@],
        ),
        api_url + "/realms/"@ + realm + "/clients/"@ + uuid + "/roles"@ == api_url + path(
            seq!["realms"@, realm, "clients"@, uuid, "roles"@],
        ),
{
    reveal_strlit("/realms");
    reveal_strlit("/realms/");
    reveal_strlit("/clients");
    reveal_strlit("/clients/");
    reveal_strlit("/roles");
    reveal_strlit("/redirects");
    reveal_strlit("realms");
    reveal_strlit("clients");
    reveal_strlit("roles");
    reveal_strlit("redirects");
    let slash = seq!['/'];
    let p1 = seq!["realms"@];
    let p2 = p1.push(realm);
    let p3 = p2.push("clients"@);
    let p4 = p3.push(uuid);
    path_of_one("realms"@);
    path_goes_on(p1, realm);
    path_goes_on(p2, "clients"@);
    path_goes_on(p2, "roles"@);
    path_goes_on(p3, uuid);
    path_goes_on(p4, "redirects"@);
    path_goes_on(p4, "roles"@);
    assert(p2 =~= seq!["realms"@, realm]);
    assert(p3 =~= seq!["realms"@, realm, "clients"@]);
    assert(p2.push("roles"@) =~= seq!["realms"@, realm, "roles"@]);
    assert(p4.push("redirects"@) =~= seq!["realms"@, realm, "clients"@, uuid, "redirects"@]);
    assert(p4.push("roles"@) =~= seq!["realms"@, realm, "clients"@, uuid, "roles"@]);
    assert("/realms"@ =~= slash + "realms"@);
    assert("/realms/"@ =~= slash + "realms"@ + slash);
    assert("/clients"@ =~= slash + "clients"@);
    assert("/clients/"@ =~= slash + "clients"@ + slash);
    assert("/roles"@ =~= slash + "roles"@);
    assert("/redirects"@ =~= slash + "redirects"@);
    assert(api_url + "/realms/"@ + realm =~= api_url + path(p2));
    assert(api_url + "/realms/"@ + realm + "/clients"@ =~= api_url + path(p3));
    assert(api_url + "/realms/"@ + realm + "/roles"@ =~= api_url + path(p2.push("roles"@)));
    assert(api_url + "/realms/"@ + realm + "/clients/"@ + uuid =~= api_url + path(p4));
    assert(api_url + "/realms/"@ + realm + "/clients/"@ + uuid + "/redirects"@ =~= api_url + path(
        p4.push("redirects"@),
    ));
    assert(api_url + "/realms/"@ + realm + "/clients/"@ + uuid + "/roles"@ =~= api_url + path(
        p4.push("roles"@),
    ));
}

/// The request that creates a realm tells its name, its display name and whether it is enabled.
pub proof fn realm_requests_tell_the_realm(session: SessionView, realm: RealmView)
    ensures
        creates_realm(
            create_realm_call(
                session.api_url,
                session.token,
                realm.name,
                realm.display_name,
                realm.enabled,
            ),
            session,
            realm,
        ),
{
    let request = create_realm_call(
        session.api_url,
        session.token,
        realm.name,
        realm.display_name,
        realm.enabled,
    );
    let body = request.body->0;
    realm_paths(session.api_url, realm.name, Seq::empty());
    bodies_are_distinct(
        session.api_url,
        session.token,
        realm,
        any_client(),
        None,
        any_role(),
    );
    members_are_said(body, 0);
    members_are_said(body, 1);
    if realm.display_name is Some {
        members_are_said(body, 2);
    } else {
        reveal_strlit("name");
        reveal_strlit("enabled");
        reveal_strlit("displayName");
        let members = body->Object_0;
        assert forall|i: int| 0 <= i < members.len() implies (#[trigger] members[i]).0
            != "displayName"@ by {
            assert(members[i].0.len() != "displayName"@.len());
        }
    }
}

/// The request that creates a client tells all of its settings.
pub proof fn client_requests_tell_the_client(
    session: SessionView,
    realm: Seq<char>,
    client: ClientView,
)
    ensures
        creates_client(
            create_client_call(session.api_url, session.token, realm, client),
            session,
            realm,
            client,
        ),
{
    let body = create_client_call(session.api_url, session.token, realm, client).body->0;
    let members = body->Object_0;
    realm_paths(session.api_url, realm, Seq::empty());
    bodies_are_distinct(
        session.api_url,
        session.token,
        any_realm(realm),
        client,
        None,
        any_role(),
    );
    members_are_said(body, 0);
    members_are_said(body, 1);
    members_are_said(body, 2);
    members_are_said(body, 3);
    members_are_said(body, 4);
    members_are_said(body, 5);
    members_are_said(body, 6);
    members_are_said(body, 7);
    if client.secret is Some {
        members_are_said(body, 8);
    } else {
        reveal_strlit("clientId");
        reveal_strlit("name");
        reveal_strlit("enabled");
        reveal_strlit("publicClient");
        reveal_strlit("clientType");
        reveal_strlit("protocol");
        reveal_strlit("directAccessGrantsEnabled");
        reveal_strlit("serviceAccountsEnabled");
        reveal_strlit("secret");
        assert forall|i: int| 0 <= i < members.len() implies (#[trigger] members[i]).0
            != "secret"@ by {
            assert(members[i].0.len() != "secret"@.len());
        }
    }
}

/// The request that allows a redirect URI tells the URI and whose it is.
pub proof fn redirect_requests_tell_the_uri(
    session: SessionView,
    realm: Seq<char>,
    uuid: Seq<char>,
    uri: Seq<char>,
)
    ensures
        allows_redirect(
            create_redirect_call(session.api_url, session.token, realm, uuid, uri),
            session,
            realm,
            uuid,
            uri,
        ),
{
    let body = create_redirect_call(session.api_url, session.token, realm, uuid, uri).body->0;
    realm_paths(session.api_url, realm, uuid);
    members_are_said(body, 0);
}

/// The request that creates a role, of the realm or of a client, tells its name, its description
/// and all its permissions.
pub proof fn role_requests_tell_the_role(
    session: SessionView,
    realm: Seq<char>,
    uuid: Option<Seq<char>>,
    role: RoleView,
)
    ensures
        creates_role(
            create_role_call(session.api_url, session.token, realm, uuid, role),
            session,
            realm,
            uuid,
            role,
        ),
{
    let body = create_role_call(session.api_url, session.token, realm, uuid, role).body->0;
    match uuid {
        Some(uuid) => realm_paths(session.api_url, realm, uuid),
        None => realm_paths(session.api_url, realm, Seq::empty()),
    }
    bodies_are_distinct(
        session.api_url,
        session.token,
        any_realm(realm),
        any_client(),
        uuid,
        role,
    );
    members_are_said(body, 0);
    members_are_said(body, 1);
    members_are_said(body, 2);
    let items = texts_view(role.permissions)->Array_0;
    assert(says(body, "permissions"@, JsonView::Array(items)));
}

/// The request that deletes a realm names that realm.
pub proof fn delete_requests_name_the_realm(session: SessionView, realm: Seq<char>)
    ensures
        deletes_realm(
            delete_realm_call(session.api_url, session.token, realm),
            session,
            realm,
        ),
{
    realm_paths(session.api_url, realm, Seq::empty());
}

/// An object has one value under a name at most.
pub proof fn one_value_under_a_name(json: JsonView, name: Seq<char>, a: JsonView, b: JsonView)
    requires
        says(json, name, a),
        says(json, name, b),
    ensures
        a == b,
{
    let members = json->Object_0;
    let i = choose|i: int| 0 <= i < members.len() && members[i] == (name, a);
    assert(members[i].1 == b);
}

/// Logins with different credentials send different bodies.
pub proof fn different_users_send_different_logins(
    api_url: Seq<char>,
    username: Seq<char>,
    password: Seq<char>,
    other_api_url: Seq<char>,
    other_username: Seq<char>,
    other_password: Seq<char>,
)
    requires
        username != other_username || password != other_password,
    ensures
        authenticate_call(api_url, username, password).body != authenticate_call(
            other_api_url,
            other_username,
            other_password,
        ).body,
{
    let body = authenticate_call(api_url, username, password).body;
    let other = authenticate_call(other_api_url, other_username, other_password).body;
    logins_send_their_credentials(api_url, username, password);
    logins_send_their_credentials(other_api_url, other_username, other_password);
    if body == other {
        one_value_under_a_name(
            body->0,
            "username"@,
            JsonView::Text(username),
            JsonView::Text(other_username),
        );
        one_value_under_a_name(
            body->0,
            "password"@,
            JsonView::Text(password),
            JsonView::Text(other_password),
        );
    }
}

/// The requests of two clients that differ in a flag, or in a secret, differ.
pub proof fn different_clients_send_different_requests(
    session: SessionView,
    realm: Seq<char>,
    client: ClientView,
    other: ClientView,
)
    requires
        client.client_id != other.client_id || client.enabled != other.enabled
            || client.public_client != other.public_client || client.secret != other.secret
            || client.direct_access_grants_enabled != other.direct_access_grants_enabled
            || client.service_accounts_enabled != other.service_accounts_enabled,
    ensures
        create_client_call(session.api_url, session.token, realm, client).body
            != create_client_call(session.api_url, session.token, realm, other).body,
{
    let body = create_client_call(session.api_url, session.token, realm, client).body;
    let other_body = create_client_call(session.api_url, session.token, realm, other).body;
    client_requests_tell_the_client(session, realm, client);
    client_requests_tell_the_client(session, realm, other);
    if body == other_body {
        one_value_under_a_name(
            body->0,
            "clientId"@,
            JsonView::Text(client.client_id),
            JsonView::Text(other.client_id),
        );
        one_value_under_a_name(
            body->0,
            "enabled"@,
            JsonView::Bool(client.enabled),
            JsonView::Bool(other.enabled),
        );
        one_value_under_a_name(
            body->0,
            "publicClient"@,
            JsonView::Bool(client.public_client),
            JsonView::Bool(other.public_client),
        );
        one_value_under_a_name(
            body->0,
            "directAccessGrantsEnabled"@,
            JsonView::Bool(client.direct_access_grants_enabled),
            JsonView::Bool(other.direct_access_grants_enabled),
        );
        one_value_under_a_name(
            body->0,
            "serviceAccountsEnabled"@,
            JsonView::Bool(client.service_accounts_enabled),
            JsonView::Bool(other.service_accounts_enabled),
        );
        if client.secret is Some && other.secret is Some {
            one_value_under_a_name(
                body->0,
                "secret"@,
                JsonView::Text(client.secret->0),
                JsonView::Text(other.secret->0),
            );
        }
    }
}

} // verus!
