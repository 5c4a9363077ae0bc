//! The calls of the FerrisKey API: what each one sends, and what its reply means.
use crate::entities::{ClientImport, ClientView, RoleImport, RoleView};
use crate::error::{text_result, unit_result, ErrorView, OperatorError};
use crate::http::{
    is_success_code, parsed_reply, read_reply, reply_text, status_text, HttpRequest, HttpStatus,
    JsonDelivery, JsonDeliveryView, JsonReply, Method, ReplyView, RequestView, TextDelivery,
    TextDeliveryView,
};
use crate::json::{
    object, optional_text, optional_text_view, text, texts, texts_view, Json, JsonView,
};
use crate::text::{decimal, mentions, middle_is_mentioned, numeral_comes_first};
use vstd::prelude::*;

verus! {

/// A request that posts `body`.
pub open spec fn post(url: Seq<char>, bearer: Option<Seq<char>>, body: JsonView) -> RequestView {
    RequestView { method: Method::Post, url, bearer, body: Some(body) }
}

/// An error message about a refusal: `before`, the status, `between`, and what the reply says.
fn refusal(before: &str, status: HttpStatus, between: &str, said: &str) -> (message: String)
    ensures
        message@ == before@ + status_text(status@ as u16) + between@ + said@,
        mentions(message@, decimal(status@ as nat)),
{
    let described = status.describe();
    proof {
        numeral_comes_first(status@ as nat, described@);
        middle_is_mentioned(before@, described@, between@ + said@, decimal(status@ as nat));
        assert(before@ + described@ + between@ + said@ =~= before@ + described@ + (between@
            + said@));
    }
    before.to_string().concat(described.as_str()).concat(between).concat(said)
}

// ---- Logging in ----

/// The request that logs in to the master realm.
pub open spec fn authenticate_call(
    api_url: Seq<char>,
    username: Seq<char>,
    password: Seq<char>,
) -> RequestView {
    post(
        api_url + "/realms/master/login-actions/authenticate"@,
        None,
        JsonView::Object(
            seq![
                ("username"@, JsonView::Text(username)),
                ("password"@, JsonView::Text(password)),
            ],
        ),
    )
}

/// The token in a JSON reply to a login, or why there is none.
pub open spec fn authenticate_meaning(code: int, reply: ReplyView) -> Result<Seq<char>, ErrorView> {
    if !is_success_code(code) {
        Err(
            ErrorView::AuthError(
                "Authentication failed with status "@ + status_text(code as u16) + ": "@
                    + reply.debug,
            ),
        )
    } else {
        match reply_text(reply, "token"@) {
            Some(token) if token.len() > 0 => Ok(token),
            _ => Err(ErrorView::AuthError("No token received from authentication"@)),
        }
    }
}

/// The token that a login yields, or why it yields none.
pub open spec fn authenticate_result(delivery: JsonDeliveryView) -> Result<Seq<char>, ErrorView> {
    match delivery {
        JsonDeliveryView::Failed(error) => Err(
            ErrorView::AuthError("Authentication request failed: "@ + error),
        ),
        JsonDeliveryView::Answered(code, body) => match body {
            Err(error) => Err(ErrorView::AuthError("Failed to parse auth response: "@ + error)),
            Ok(bytes) => match parsed_reply(bytes) {
                Some(reply) => authenticate_meaning(code, reply),
                None => Err(
                    ErrorView::AuthError(
                        "Failed to parse auth response: "@ + "error decoding response body"@,
                    ),
                ),
            },
        },
    }
}

/// The request that logs in with these credentials.
pub fn authenticate_request(api_url: &str, username: &str, password: &str) -> (request: HttpRequest)
    ensures
        request@ == authenticate_call(api_url@, username@, password@),
{
    let mut members: Vec<(String, Json)> = Vec::new();
    members.push(("username".to_string(), text(username)));
    members.push(("password".to_string(), text(password)));
    let body = object(members);
    assert(body@->Object_0 =~= seq![
        ("username"@, JsonView::Text(username@)),
        ("password"@, JsonView::Text(password@)),
    ]);
    HttpRequest {
        method: Method::Post,
        url: api_url.to_string().concat("/realms/master/login-actions/authenticate"),
        bearer: None,
        body: Some(body),
    }
}

/// What a JSON reply to a login means: the token, where the login succeeded and the reply holds
/// one that is not empty.
pub fn authenticate_outcome(status: HttpStatus, reply: &JsonReply) -> (token: Result<
    String,
    OperatorError,
>)
    ensures
        text_result(token) == authenticate_meaning(status@, reply@),
        !is_success_code(status@) ==> token is Err && mentions(
            token->Err_0.message(),
            decimal(status@ as nat),
        ),
{
    if !status.is_success() {
        return Err(
            OperatorError::AuthError {
                message: refusal(
                    "Authentication failed with status ",
                    status,
                    ": ",
                    reply.debug.as_str(),
                ),
            },
        );
    }
    match reply.text("token") {
        Some(token) => {
            if token.as_str().is_empty() {
                Err(
                    OperatorError::AuthError {
                        message: "No token received from authentication".to_string(),
                    },
                )
            } else {
                Ok(token)
            }
        },
        None => Err(
            OperatorError::AuthError {
                message: "No token received from authentication".to_string(),
            },
        ),
    }
}

/// What came of a login: the token, or why there is none.
pub fn authenticate_reply(delivery: &JsonDelivery) -> (token: Result<String, OperatorError>)
    ensures
        text_result(token) == authenticate_result(delivery@),
{
    match delivery {
        JsonDelivery::Failed { error } => Err(
            OperatorError::AuthError {
                message: "Authentication request failed: ".to_string().concat(error.as_str()),
            },
        ),
        JsonDelivery::Answered { status, body } => match body {
            Err(error) => Err(
                OperatorError::AuthError {
                    message: "Failed to parse auth response: ".to_string().concat(error.as_str()),
                },
            ),
            Ok(bytes) => match read_reply(bytes.as_slice()) {
                Some(reply) => authenticate_outcome(*status, &reply),
                None => Err(
                    OperatorError::AuthError {
                        message: "Failed to parse auth response: ".to_string().concat(
                            "error decoding response body",
                        ),
                    },
                ),
            },
        },
    }
}

// ---- Realms ----

/// The body that creates a realm. There is a display name only where one is asked for.
pub open spec fn realm_body(
    realm: Seq<char>,
    display_name: Option<Seq<char>>,
    enabled: bool,
) -> JsonView {
    match display_name {
        Some(display_name) => JsonView::Object(
            seq![
                ("name"@, JsonView::Text(realm)),
                ("displayName"@, JsonView::Text(display_name)),
                ("enabled"@, JsonView::Bool(enabled)),
            ],
        ),
        None => JsonView::Object(
            seq![("name"@, JsonView::Text(realm)), ("enabled"@, JsonView::Bool(enabled))],
        ),
    }
}

/// The request that creates a realm.
pub open spec fn create_realm_call(
    api_url: Seq<char>,
    token: Seq<char>,
    realm: Seq<char>,
    display_name: Option<Seq<char>>,
    enabled: bool,
) -> RequestView {
    post(api_url + "/realms"@, Some(token), realm_body(realm, display_name, enabled))
}

/// What came of the request that creates a realm.
pub open spec fn create_realm_result(realm: Seq<char>, delivery: TextDeliveryView) -> Result<
    (),
    ErrorView,
> {
    match delivery {
        TextDeliveryView::Failed(error) => Err(
            ErrorView::RealmImportError("Failed to create realm '"@ + realm + "': "@ + error),
        ),
        TextDeliveryView::Answered(code, text) => if is_success_code(code) {
            Ok(())
        } else {
            Err(
                ErrorView::RealmImportError(
                    "Failed to create realm '"@ + realm + "': HTTP "@ + status_text(code as u16)
                        + " - "@ + text,
                ),
            )
        },
    }
}

/// The request that deletes a realm, and with it all its clients and roles.
pub open spec fn delete_realm_call(
    api_url: Seq<char>,
    token: Seq<char>,
    realm: Seq<char>,
) -> RequestView {
    RequestView {
        method: Method::Delete,
        url: api_url + "/realms/"@ + realm,
        bearer: Some(token),
        body: None,
    }
}

/// What came of the request that deletes a realm. A realm that is not there counts as deleted.
pub open spec fn delete_realm_result(realm: Seq<char>, delivery: TextDeliveryView) -> Result<
    (),
    ErrorView,
> {
    match delivery {
        TextDeliveryView::Failed(error) => Err(
            ErrorView::RealmImportError("Failed to delete realm '"@ + realm + "': "@ + error),
        ),
        TextDeliveryView::Answered(code, text) => if is_success_code(code) || code == 404 {
            Ok(())
        } else {
            Err(
                ErrorView::RealmImportError(
                    "Failed to delete realm '"@ + realm + "': HTTP "@ + status_text(code as u16)
                        + " - "@ + text,
                ),
            )
        },
    }
}

/// The request that creates a realm.
pub fn create_realm_request(
    api_url: &str,
    token: &str,
    realm_name: &str,
    display_name: &Option<String>,
    enabled: bool,
) -> (request: HttpRequest)
    ensures
        request@ == create_realm_call(
            api_url@,
            token@,
            realm_name@,
            display_name.deep_view(),
            enabled,
        ),
{
    let mut members: Vec<(String, Json)> = Vec::new();
    members.push(("name".to_string(), text(realm_name)));
    if let Some(display_name) = display_name {
        members.push(("displayName".to_string(), text(display_name.as_str())));
    }
    members.push(("enabled".to_string(), Json::Bool(enabled)));
    let body = object(members);
    assert(body@->Object_0 =~= realm_body(
        realm_name@,
        display_name.deep_view(),
        enabled,
    )->Object_0);
    HttpRequest {
        method: Method::Post,
        url: api_url.to_string().concat("/realms"),
        bearer: Some(token.to_string()),
        body: Some(body),
    }
}

/// What came of the request that creates a realm.
pub fn create_realm_reply(realm_name: &str, delivery: &TextDelivery) -> (result: Result<
    (),
    OperatorError,
>)
    ensures
        unit_result(result) == create_realm_result(realm_name@, delivery@),
        result is Err ==> (delivery@ matches TextDeliveryView::Answered(code, _) ==> mentions(
            result->Err_0.message(),
            decimal(code as nat),
        )),
{
    match delivery {
        TextDelivery::Failed { error } => Err(
            OperatorError::RealmImportError {
                message: "Failed to create realm '".to_string().concat(realm_name).concat(
                    "': ",
                ).concat(error.as_str()),
            },
        ),
        TextDelivery::Answered { status, text } => if status.is_success() {
            Ok(())
        } else {
            Err(
                OperatorError::RealmImportError {
                    message: refusal(
                        "Failed to create realm '".to_string().concat(realm_name).concat(
                            "': HTTP ",
                        ).as_str(),
                        *status,
                        " - ",
                        text.as_str(),
                    ),
                },
            )
        },
    }
}

/// The request that deletes a realm.
pub fn delete_realm_request(api_url: &str, token: &str, realm_name: &str) -> (request: HttpRequest)
    ensures
        request@ == delete_realm_call(api_url@, token@, realm_name@),
{
    HttpRequest {
        method: Method::Delete,
        url: api_url.to_string().concat("/realms/").concat(realm_name),
        bearer: Some(token.to_string()),
        body: None,
    }
}

/// What came of the request that deletes a realm. A realm that is not there counts as deleted.
pub fn delete_realm_reply(realm_name: &str, delivery: &TextDelivery) -> (result: Result<
    (),
    OperatorError,
>)
    ensures
        unit_result(result) == delete_realm_result(realm_name@, delivery@),
        result is Err ==> (delivery@ matches TextDeliveryView::Answered(code, _) ==> mentions(
            result->Err_0.message(),
            decimal(code as nat),
        )),
{
    match delivery {
        TextDelivery::Failed { error } => Err(
            OperatorError::RealmImportError {
                message: "Failed to delete realm '".to_string().concat(realm_name).concat(
                    "': ",
                ).concat(error.as_str()),
            },
        ),
        TextDelivery::Answered { status, text } => if status.is_success() || status.as_u16()
            == 404 {
            Ok(())
        } else {
            Err(
                OperatorError::RealmImportError {
                    message: refusal(
                        "Failed to delete realm '".to_string().concat(realm_name).concat(
                            "': HTTP ",
                        ).as_str(),
                        *status,
                        " - ",
                        text.as_str(),
                    ),
                },
            )
        },
    }
}

// ---- Clients ----

/// A client's type: the one that is asked for, else by whether the client is public.
pub open spec fn client_type(client: ClientView) -> Seq<char> {
    match client.client_type {
        Some(client_type) => client_type,
        None => if client.public_client {
            "public"@
        } else {
            "confidential"@
        },
    }
}

/// A client's name: the one that is asked for, else its ID.
pub open spec fn client_name(client: ClientView) -> Seq<char> {
    match client.name {
        Some(name) => name,
        None => client.client_id,
    }
}

/// A client's protocol: the one that is asked for, else OpenID Connect.
pub open spec fn client_protocol(client: ClientView) -> Seq<char> {
    match client.protocol {
        Some(protocol) => protocol,
        None => "openid-connect"@,
    }
}

/// The members of the body that creates a client. There is a secret only where one is asked for.
pub open spec fn client_members(client: ClientView) -> Seq<(Seq<char>, JsonView)> {
    let members = seq![
        ("clientId"@, JsonView::Text(client.client_id)),
        ("name"@, JsonView::Text(client_name(client))),
        ("enabled"@, JsonView::Bool(client.enabled)),
        ("publicClient"@, JsonView::Bool(client.public_client)),
        ("clientType"@, JsonView::Text(client_type(client))),
        ("protocol"@, JsonView::Text(client_protocol(client))),
        ("directAccessGrantsEnabled"@, JsonView::Bool(client.direct_access_grants_enabled)),
        ("serviceAccountsEnabled"@, JsonView::Bool(client.service_accounts_enabled)),
    ];
    match client.secret {
        Some(secret) => members.push(("secret"@, JsonView::Text(secret))),
        None => members,
    }
}

/// The request that creates a client.
pub open spec fn create_client_call(
    api_url: Seq<char>,
    token: Seq<char>,
    realm: Seq<char>,
    client: ClientView,
) -> RequestView {
    post(
        api_url + "/realms/"@ + realm + "/clients"@,
        Some(token),
        JsonView::Object(client_members(client)),
    )
}

/// The UUID in a JSON reply to the request that creates a client, or why there is none.
pub open spec fn create_client_meaning(client_id: Seq<char>, code: int, reply: ReplyView) -> Result<
    Seq<char>,
    ErrorView,
> {
    if !is_success_code(code) {
        Err(
            ErrorView::RealmImportError(
                "Failed to create client '"@ + client_id + "': HTTP "@ + status_text(code as u16)
                    + " - "@ + reply.debug,
            ),
        )
    } else {
        match reply_text(reply, "id"@) {
            Some(uuid) => Ok(uuid),
            None => Err(
                ErrorView::RealmImportError(
                    "No client UUID returned for client '"@ + client_id + "'"@,
                ),
            ),
        }
    }
}

/// The UUID that creating a client yields, or why it yields none.
pub open spec fn create_client_result(
    realm: Seq<char>,
    client_id: Seq<char>,
    delivery: JsonDeliveryView,
) -> Result<Seq<char>, ErrorView> {
    match delivery {
        JsonDeliveryView::Failed(error) => Err(
            ErrorView::RealmImportError(
                "Failed to create client '"@ + client_id + "' in realm '"@ + realm + "': "@ + error,
            ),
        ),
        JsonDeliveryView::Answered(code, body) => {
            let unreadable = ErrorView::RealmImportError(
                "Failed to parse response creating client '"@ + client_id + "'"@,
            );
            match body {
                Err(_) => Err(unreadable),
                Ok(bytes) => match parsed_reply(bytes) {
                    Some(reply) => create_client_meaning(client_id, code, reply),
                    None => Err(unreadable),
                },
            }
        },
    }
}

/// The type that a client is created with.
fn effective_client_type(client: &ClientImport) -> (client_type: String)
    ensures
        client_type@ == self::client_type(client@),
{
    match &client.client_type {
        Some(client_type) => client_type.clone(),
        None => if client.public_client {
            "public".to_string()
        } else {
            "confidential".to_string()
        },
    }
}

/// The request that creates a client.
pub fn create_client_request(
    api_url: &str,
    token: &str,
    realm_name: &str,
    client: &ClientImport,
) -> (request: HttpRequest)
    ensures
        request@ == create_client_call(api_url@, token@, realm_name@, client@),
{
    let name: String = match &client.name {
        Some(name) => name.clone(),
        None => client.client_id.clone(),
    };
    let protocol: String = match &client.protocol {
        Some(protocol) => protocol.clone(),
        None => "openid-connect".to_string(),
    };
    let mut members: Vec<(String, Json)> = Vec::new();
    members.push(("clientId".to_string(), text(client.client_id.as_str())));
    members.push(("name".to_string(), Json::Text(name)));
    members.push(("enabled".to_string(), Json::Bool(client.enabled)));
    members.push(("publicClient".to_string(), Json::Bool(client.public_client)));
    members.push(("clientType".to_string(), Json::Text(effective_client_type(client))));
    members.push(("protocol".to_string(), Json::Text(protocol)));
    members.push(
        ("directAccessGrantsEnabled".to_string(), Json::Bool(client.direct_access_grants_enabled)),
    );
    members.push(
        ("serviceAccountsEnabled".to_string(), Json::Bool(client.service_accounts_enabled)),
    );
    if let Some(secret) = &client.secret {
        members.push(("secret".to_string(), text(secret.as_str())));
    }
    let body = object(members);
    assert(body@->Object_0 =~= client_members(client@));
    HttpRequest {
        method: Method::Post,
        url: api_url.to_string().concat("/realms/").concat(realm_name).concat("/clients"),
        bearer: Some(token.to_string()),
        body: Some(body),
    }
}

/// What a JSON reply to the request that creates a client means: the client's UUID, where the
/// request succeeded and the reply holds one.
pub fn create_client_outcome(client_id: &str, status: HttpStatus, reply: &JsonReply) -> (uuid:
    Result<String, OperatorError>)
    ensures
        text_result(uuid) == create_client_meaning(client_id@, status@, reply@),
        !is_success_code(status@) ==> uuid is Err && mentions(
            uuid->Err_0.message(),
            decimal(status@ as nat),
        ),
{
    if !status.is_success() {
        return Err(
            OperatorError::RealmImportError {
                message: refusal(
                    "Failed to create client '".to_string().concat(client_id).concat(
                        "': HTTP ",
                    ).as_str(),
                    status,
                    " - ",
                    reply.debug.as_str(),
                ),
            },
        );
    }
    match reply.text("id") {
        Some(uuid) => Ok(uuid),
        None => Err(
            OperatorError::RealmImportError {
                message: "No client UUID returned for client '".to_string().concat(
                    client_id,
                ).concat("'"),
            },
        ),
    }
}

/// What came of the request that creates a client: its UUID, or why there is none.
pub fn create_client_reply(realm_name: &str, client_id: &str, delivery: &JsonDelivery) -> (uuid:
    Result<String, OperatorError>)
    ensures
        text_result(uuid) == create_client_result(realm_name@, client_id@, delivery@),
{
    match delivery {
        JsonDelivery::Failed { error } => Err(
            OperatorError::RealmImportError {
                message: "Failed to create client '".to_string().concat(client_id).concat(
                    "' in realm '",
                ).concat(realm_name).concat("': ").concat(error.as_str()),
            },
        ),
        JsonDelivery::Answered { status, body } => {
            if let Ok(bytes) = body {
                if let Some(reply) = read_reply(bytes.as_slice()) {
                    return create_client_outcome(client_id, *status, &reply);
                }
            }
            Err(
                OperatorError::RealmImportError {
                    message: "Failed to parse response creating client '".to_string().concat(
                        client_id,
                    ).concat("'"),
                },
            )
        },
    }
}

// ---- Redirect URIs ----

/// The request that allows a client to redirect to `uri`.
pub open spec fn create_redirect_call(
    api_url: Seq<char>,
    token: Seq<char>,
    realm: Seq<char>,
    uuid: Seq<char>,
    uri: Seq<char>,
) -> RequestView {
    post(
        api_url + "/realms/"@ + realm + "/clients/"@ + uuid + "/redirects"@,
        Some(token),
        JsonView::Object(seq![("redirectUri"@, JsonView::Text(uri))]),
    )
}

/// Whether a redirect URI was accepted. A refusal is no error; only a request that could not be
/// sent is.
pub open spec fn create_redirect_result(
    uri: Seq<char>,
    client_id: Seq<char>,
    delivery: TextDeliveryView,
) -> Result<bool, ErrorView> {
    match delivery {
        TextDeliveryView::Failed(error) => Err(
            ErrorView::RealmImportError(
                "Failed to create redirect URI '"@ + uri + "' for client '"@ + client_id + "': "@
                    + error,
            ),
        ),
        TextDeliveryView::Answered(code, _) => Ok(is_success_code(code)),
    }
}

/// The request that allows a client to redirect to `uri`.
pub fn create_redirect_request(
    api_url: &str,
    token: &str,
    realm_name: &str,
    client_uuid: &str,
    uri: &str,
) -> (request: HttpRequest)
    ensures
        request@ == create_redirect_call(api_url@, token@, realm_name@, client_uuid@, uri@),
{
    let mut members: Vec<(String, Json)> = Vec::new();
    members.push(("redirectUri".to_string(), text(uri)));
    let body = object(members);
    assert(body@->Object_0 =~= seq![("redirectUri"@, JsonView::Text(uri@))]);
    HttpRequest {
        method: Method::Post,
        url: api_url.to_string().concat("/realms/").concat(realm_name).concat("/clients/").concat(
            client_uuid,
        ).concat("/redirects"),
        bearer: Some(token.to_string()),
        body: Some(body),
    }
}

/// Whether a redirect URI was accepted, or why the request could not be sent.
pub fn create_redirect_reply(uri: &str, client_id: &str, delivery: &TextDelivery) -> (accepted:
    Result<bool, OperatorError>)
    ensures
        match accepted {
            Ok(accepted) => create_redirect_result(uri@, client_id@, delivery@) == Ok::<
                bool,
                ErrorView,
            >(accepted),
            Err(e) => create_redirect_result(uri@, client_id@, delivery@) == Err::<
                bool,
                ErrorView,
            >(e@),
        },
{
    match delivery {
        TextDelivery::Failed { error } => Err(
            OperatorError::RealmImportError {
                message: "Failed to create redirect URI '".to_string().concat(uri).concat(
                    "' for client '",
                ).concat(client_id).concat("': ").concat(error.as_str()),
            },
        ),
        TextDelivery::Answered { status, text: _ } => Ok(status.is_success()),
    }
}

// ---- Roles ----

/// The request that creates a role: one of the client with this UUID, or, without one, a role of
/// the realm.
pub open spec fn create_role_call(
    api_url: Seq<char>,
    token: Seq<char>,
    realm: Seq<char>,
    uuid: Option<Seq<char>>,
    role: RoleView,
) -> RequestView {
    post(
        match uuid {
            Some(uuid) => api_url + "/realms/"@ + realm + "/clients/"@ + uuid + "/roles"@,
            None => api_url + "/realms/"@ + realm + "/roles"@,
        },
        Some(token),
        JsonView::Object(
            seq![
                ("name"@, JsonView::Text(role.name)),
                ("description"@, optional_text_view(role.description)),
                ("permissions"@, texts_view(role.permissions)),
            ],
        ),
    )
}

/// What came of the request that creates a role.
pub open spec fn create_role_result(
    realm: Seq<char>,
    role: Seq<char>,
    delivery: TextDeliveryView,
) -> Result<(), ErrorView> {
    match delivery {
        TextDeliveryView::Failed(error) => Err(
            ErrorView::RealmImportError(
                "Failed to create role '"@ + role + "' in realm '"@ + realm + "': "@ + error,
            ),
        ),
        TextDeliveryView::Answered(code, text) => if is_success_code(code) {
            Ok(())
        } else {
            Err(
                ErrorView::RealmImportError(
                    "Failed to create role '"@ + role + "': HTTP "@ + status_text(code as u16)
                        + " - "@ + text,
                ),
            )
        },
    }
}

/// The request that creates a role of a client, or of the realm where no client is given.
pub fn create_role_request(
    api_url: &str,
    token: &str,
    realm_name: &str,
    client_uuid: Option<&str>,
    role: &RoleImport,
) -> (request: HttpRequest)
    ensures
        request@ == create_role_call(
            api_url@,
            token@,
            realm_name@,
            match client_uuid {
                Some(uuid) => Some(uuid@),
                None => None,
            },
            role@,
        ),
{
    let realm_url: String = api_url.to_string().concat("/realms/").concat(realm_name);
    let url: String = match client_uuid {
        Some(uuid) => realm_url.concat("/clients/").concat(uuid).concat("/roles"),
        None => realm_url.concat("/roles"),
    };
    let mut members: Vec<(String, Json)> = Vec::new();
    members.push(("name".to_string(), text(role.name.as_str())));
    members.push(("description".to_string(), optional_text(&role.description)));
    members.push(("permissions".to_string(), texts(&role.permissions)));
    let body = object(members);
    assert(body@->Object_0 =~= seq![
        ("name"@, JsonView::Text(role@.name)),
        ("description"@, optional_text_view(role@.description)),
        ("permissions"@, texts_view(role@.permissions)),
    ]);
    HttpRequest { method: Method::Post, url, bearer: Some(token.to_string()), body: Some(body) }
}

/// What came of the request that creates a role.
pub fn create_role_reply(realm_name: &str, role_name: &str, delivery: &TextDelivery) -> (result:
    Result<(), OperatorError>)
    ensures
        unit_result(result) == create_role_result(realm_name@, role_name@, delivery@),
        result is Err ==> (delivery@ matches TextDeliveryView::Answered(code, _) ==> mentions(
            result->Err_0.message(),
            decimal(code as nat),
        )),
{
    match delivery {
        TextDelivery::Failed { error } => Err(
            OperatorError::RealmImportError {
                message: "Failed to create role '".to_string().concat(role_name).concat(
                    "' in realm '",
                ).concat(realm_name).concat("': ").concat(error.as_str()),
            },
        ),
        TextDelivery::Answered { status, text } => if status.is_success() {
            Ok(())
        } else {
            Err(
                OperatorError::RealmImportError {
                    message: refusal(
                        "Failed to create role '".to_string().concat(role_name).concat(
                            "': HTTP ",
                        ).as_str(),
                        *status,
                        " - ",
                        text.as_str(),
                    ),
                },
            )
        },
    }
}

} // verus!
