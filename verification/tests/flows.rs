use base64::Engine;
use ferriskey_operator::cleanup_flow::{CleanupFlow, CleanupTurn};
use ferriskey_operator::connect::{admin_secret_name, Command, Event};
use ferriskey_operator::crds::{
    ApiSpec, DatabaseSpec, FerrisKeyClusterSpec, SecretReference,
};
use ferriskey_operator::credentials::{admin_credentials, credentials_from, SecretData};
use ferriskey_operator::entities::{
    ClientImport, ClusterRef, RealmImport, RealmImportSpec, RealmImportStatus, RoleImport,
};
use ferriskey_operator::error::OperatorError;
use ferriskey_operator::http::{HttpRequest, HttpStatus, JsonDelivery, Method, TextDelivery};
use ferriskey_operator::import_flow::{ImportFlow, ImportTurn};
use ferriskey_operator::json::Json;
use ferriskey_operator::text::{decimal_text, trim_trailing_slashes};

fn make_test_spec() -> RealmImportSpec {
    RealmImportSpec {
        cluster_ref: ClusterRef {
            name: "test-cluster".to_string(),
        },
        realm: RealmImport {
            name: "test-realm".to_string(),
            display_name: Some("Test Realm".to_string()),
            enabled: true,
            realm_roles: vec![RoleImport {
                name: "admin".to_string(),
                description: Some("Admin role".to_string()),
                permissions: vec!["read".to_string(), "write".to_string()],
            }],
            clients: vec![ClientImport {
                client_id: "test-client".to_string(),
                name: Some("Test Client".to_string()),
                enabled: true,
                public_client: false,
                secret: Some("test-secret".to_string()),
                protocol: Some("openid-connect".to_string()),
                redirect_uris: vec!["https://example.com/*".to_string()],
                client_type: Some("confidential".to_string()),
                direct_access_grants_enabled: false,
                service_accounts_enabled: false,
                roles: vec![RoleImport {
                    name: "app-role".to_string(),
                    description: None,
                    permissions: vec!["read".to_string()],
                }],
            }],
        },
    }
}

fn second_client() -> ClientImport {
    ClientImport {
        client_id: "other".to_string(),
        name: None,
        enabled: true,
        public_client: true,
        secret: None,
        protocol: None,
        redirect_uris: vec![],
        client_type: None,
        direct_access_grants_enabled: false,
        service_accounts_enabled: false,
        roles: vec![],
    }
}

fn cluster(name: &str, api_url: &str) -> FerrisKeyClusterSpec {
    FerrisKeyClusterSpec {
        name: name.to_string(),
        version: "1.0.0".to_string(),
        replicas: 1,
        database: DatabaseSpec {
            secret_ref: SecretReference {
                name: "db".to_string(),
                namespace: None,
            },
            database_name: None,
            ssl_mode: None,
        },
        api: ApiSpec {
            webapp_url: "https://web".to_string(),
            api_url: api_url.to_string(),
            allowed_origins: vec![],
        },
    }
}

fn encoded(s: &str) -> Vec<u8> {
    base64::engine::general_purpose::STANDARD.encode(s).into_bytes()
}

fn secret(entries: Vec<(&str, Vec<u8>)>) -> SecretData {
    SecretData {
        data: Some(
            entries
                .into_iter()
                .map(|(key, value)| (key.to_string(), value))
                .collect(),
        ),
    }
}

fn admin_secret() -> SecretData {
    secret(vec![
        ("password", encoded("pa55")),
        ("username", encoded("root")),
    ])
}

fn status(code: u16) -> HttpStatus {
    HttpStatus::from_u16(code).unwrap()
}

fn json_event(code: u16, body: &str) -> Event {
    Event::Json(JsonDelivery::Answered {
        status: status(code),
        body: Ok(body.as_bytes().to_vec()),
    })
}

fn text_event(code: u16, text: &str) -> Event {
    Event::Text(TextDelivery::Answered {
        status: status(code),
        text: text.to_string(),
    })
}

fn connect_events() -> Vec<Event> {
    vec![
        Event::Cluster(Ok(cluster("main", "https://api//"))),
        Event::Secret(Ok(admin_secret())),
        json_event(200, r#"{"token": "tok"}"#),
    ]
}

fn label(command: &Command) -> String {
    let call = |request: &HttpRequest| {
        let method = match request.method {
            Method::Post => "POST",
            Method::Delete => "DELETE",
        };
        let bearer = request.bearer.clone().unwrap_or_default();
        format!("{} {} [{}]", method, request.url, bearer)
    };
    match command {
        Command::GetCluster { name, namespace } => format!("cluster {}/{}", namespace, name),
        Command::GetSecret { name, namespace } => format!("secret {}/{}", namespace, name),
        Command::CallForJson(request) => format!("json {}", call(request)),
        Command::CallForText(request) => format!("text {}", call(request)),
    }
}

/// Runs an import on these events; what it did, and what it came to if it ended.
fn import(
    spec: &RealmImportSpec,
    events: &[Event],
) -> (Vec<String>, Option<Result<RealmImportStatus, OperatorError>>) {
    let mut done = Vec::new();
    let mut flow = ImportFlow::start(spec, "prod");
    for event in events {
        done.push(label(&flow.command()));
        match flow.advance(event) {
            ImportTurn::Waiting(next) => flow = next,
            ImportTurn::Done(result) => return (done, Some(result)),
        }
    }
    (done, None)
}

fn cleanup(
    spec: &RealmImportSpec,
    events: &[Event],
) -> (Vec<String>, Option<Result<(), OperatorError>>) {
    let mut done = Vec::new();
    let mut flow = CleanupFlow::start(spec, "prod");
    for event in events {
        done.push(label(&flow.command()));
        match flow.advance(event) {
            CleanupTurn::Waiting(next) => flow = next,
            CleanupTurn::Done(result) => return (done, Some(result)),
        }
    }
    (done, None)
}

#[test]
fn import_carries_out_its_plan() {
    let mut spec = make_test_spec();
    spec.realm.clients.push(second_client());
    let mut events = connect_events();
    events.push(text_event(201, ""));
    events.push(text_event(201, ""));
    events.push(json_event(201, r#"{"id": "uuid-1"}"#));
    events.push(text_event(400, "a refused redirect does not matter"));
    events.push(text_event(201, ""));
    events.push(json_event(201, r#"{"id": "uuid-2"}"#));
    let (done, result) = import(&spec, &events);
    assert_eq!(
        done,
        vec![
            "cluster prod/test-cluster",
            "secret prod/ferriskey-admin-main",
            "json POST https://api/realms/master/login-actions/authenticate []",
            "text POST https://api/realms [tok]",
            "text POST https://api/realms/test-realm/roles [tok]",
            "json POST https://api/realms/test-realm/clients [tok]",
            "text POST https://api/realms/test-realm/clients/uuid-1/redirects [tok]",
            "text POST https://api/realms/test-realm/clients/uuid-1/roles [tok]",
            "json POST https://api/realms/test-realm/clients [tok]",
        ]
    );
    assert_eq!(
        result,
        Some(Ok(RealmImportStatus {
            ready: true,
            message: Some(
                "Realm 'test-realm' imported successfully with 2 clients and 1 realm roles"
                    .to_string()
            ),
            phase: Some("Ready".to_string()),
        }))
    );
}

#[test]
fn import_of_a_bare_realm_ends_with_the_realm() {
    let mut spec = make_test_spec();
    spec.realm.realm_roles.clear();
    spec.realm.clients.clear();
    let mut events = connect_events();
    events.push(text_event(201, ""));
    let (done, result) = import(&spec, &events);
    assert_eq!(done.len(), 4);
    assert_eq!(
        result.unwrap().unwrap().message.unwrap(),
        "Realm 'test-realm' imported successfully with 0 clients and 0 realm roles"
    );
}

#[test]
fn import_can_be_repeated() {
    let mut spec = make_test_spec();
    spec.realm.clients.push(second_client());
    let mut events = connect_events();
    events.push(text_event(409, "realm exists"));
    events.push(text_event(409, "role exists"));
    events.push(json_event(409, r#"{"error": "client exists"}"#));
    events.push(json_event(409, "not even JSON"));
    let (done, result) = import(&spec, &events);
    assert_eq!(
        done[3..],
        [
            "text POST https://api/realms [tok]",
            "text POST https://api/realms/test-realm/roles [tok]",
            "json POST https://api/realms/test-realm/clients [tok]",
            "json POST https://api/realms/test-realm/clients [tok]",
        ]
    );
    let status = result.unwrap().unwrap();
    assert!(status.ready);
    assert_eq!(
        status.message.unwrap(),
        "Realm 'test-realm' imported successfully with 2 clients and 1 realm roles; \
         redirect URIs and roles not imported for clients that already exist: 'test-client'"
    );
}

#[test]
fn every_client_that_is_passed_over_is_named() {
    let mut spec = make_test_spec();
    spec.realm.realm_roles.clear();
    for client_id in ["b", "c"] {
        let mut client = second_client();
        client.client_id = client_id.to_string();
        client.redirect_uris.push("https://b".to_string());
        spec.realm.clients.push(client);
    }
    let mut events = connect_events();
    events.push(text_event(409, "realm exists"));
    events.push(json_event(409, "{}"));
    events.push(json_event(201, r#"{"id": "uuid-b"}"#));
    events.push(text_event(500, "the answer to a redirect URI does not matter"));
    events.push(json_event(409, "{}"));
    let (_, result) = import(&spec, &events);
    assert_eq!(
        result.unwrap().unwrap().message.unwrap(),
        "Realm 'test-realm' imported successfully with 3 clients and 0 realm roles; \
         redirect URIs and roles not imported for clients that already exist: 'test-client', 'c'"
    );
}

#[test]
fn role_conflict_in_a_new_realm_is_an_error() {
    let spec = make_test_spec();
    let mut events = connect_events();
    events.push(text_event(201, ""));
    events.push(text_event(409, "role exists"));
    let (_, result) = import(&spec, &events);
    assert_eq!(
        result,
        Some(Err(OperatorError::RealmImportError {
            message: "Failed to create role 'admin': HTTP 409 Conflict - role exists".to_string(),
        }))
    );
}

#[test]
fn client_conflict_in_a_new_realm_is_an_error() {
    let spec = make_test_spec();
    let mut events = connect_events();
    events.push(text_event(201, ""));
    events.push(text_event(201, ""));
    events.push(json_event(409, r#"{"error": "client exists"}"#));
    events.push(text_event(201, ""));
    let (done, result) = import(&spec, &events);
    assert_eq!(done.len(), 6);
    assert_eq!(
        result,
        Some(Err(OperatorError::RealmImportError {
            message: "Failed to create client 'test-client': HTTP 409 Conflict - \
                      Object {\"error\": String(\"client exists\")}"
                .to_string(),
        }))
    );
}

#[test]
fn repeated_import_creates_what_is_missing() {
    let spec = make_test_spec();
    let mut events = connect_events();
    events.push(text_event(409, "realm exists"));
    events.push(text_event(201, ""));
    events.push(json_event(201, r#"{"id": "uuid-1"}"#));
    events.push(text_event(201, ""));
    events.push(text_event(409, "role exists"));
    let (done, result) = import(&spec, &events);
    assert_eq!(
        done[7],
        "text POST https://api/realms/test-realm/clients/uuid-1/roles [tok]"
    );
    assert!(result.unwrap().is_ok());
}

#[test]
fn repeated_import_of_a_bare_realm_succeeds() {
    let mut spec = make_test_spec();
    spec.realm.realm_roles.clear();
    spec.realm.clients.clear();
    let mut events = connect_events();
    events.push(text_event(409, "realm exists"));
    assert!(import(&spec, &events).1.unwrap().unwrap().ready);
}

#[test]
fn import_tells_whether_the_realm_is_enabled() {
    let body = |enabled: bool| {
        let mut spec = make_test_spec();
        spec.realm.enabled = enabled;
        let mut flow = ImportFlow::start(&spec, "prod");
        for event in connect_events().iter() {
            flow = match flow.advance(event) {
                ImportTurn::Waiting(next) => next,
                ImportTurn::Done(result) => panic!("done: {:?}", result),
            };
        }
        match flow.command() {
            Command::CallForText(request) => request.body,
            other => panic!("no request: {:?}", other),
        }
    };
    let expected = |enabled: bool| {
        Some(Json::Object(vec![
            ("name".to_string(), Json::Text("test-realm".to_string())),
            ("displayName".to_string(), Json::Text("Test Realm".to_string())),
            ("enabled".to_string(), Json::Bool(enabled)),
        ]))
    };
    assert_eq!(body(true), expected(true));
    assert_eq!(body(false), expected(false));
}

#[test]
fn import_stops_at_the_first_failure() {
    let spec = make_test_spec();
    let mut events = connect_events();
    events.push(text_event(201, ""));
    events.push(text_event(403, "no"));
    events.push(text_event(201, ""));
    let (done, result) = import(&spec, &events);
    assert_eq!(done.len(), 5);
    assert_eq!(
        result,
        Some(Err(OperatorError::RealmImportError {
            message: "Failed to create role 'admin': HTTP 403 Forbidden - no".to_string(),
        }))
    );
}

#[test]
fn unsent_redirect_stops_an_import() {
    let spec = make_test_spec();
    let mut events = connect_events();
    events.push(text_event(201, ""));
    events.push(text_event(201, ""));
    events.push(json_event(201, r#"{"id": "uuid-1"}"#));
    events.push(Event::Text(TextDelivery::Failed {
        error: "timeout".to_string(),
    }));
    let (_, result) = import(&spec, &events);
    assert_eq!(
        result,
        Some(Err(OperatorError::RealmImportError {
            message: "Failed to create redirect URI 'https://example.com/*' for client \
                      'test-client': timeout"
                .to_string(),
        }))
    );
}

#[test]
fn missing_cluster_is_named() {
    let (_, result) = import(
        &make_test_spec(),
        &[Event::Cluster(Err("NotFound".to_string()))],
    );
    assert_eq!(
        result,
        Some(Err(OperatorError::ClusterNotFound {
            message: "FerrisKeyCluster 'test-cluster' not found in namespace 'prod': NotFound"
                .to_string(),
        }))
    );
}

#[test]
fn missing_secret_is_named() {
    let (_, result) = import(
        &make_test_spec(),
        &[
            Event::Cluster(Ok(cluster("main", "https://api"))),
            Event::Secret(Err("NotFound".to_string())),
        ],
    );
    assert_eq!(
        result,
        Some(Err(OperatorError::InternalServerError {
            message: "Admin secret 'ferriskey-admin-main' not found: NotFound".to_string(),
        }))
    );
}

#[test]
fn secret_without_password_ends_an_import() {
    let (_, result) = import(
        &make_test_spec(),
        &[
            Event::Cluster(Ok(cluster("main", "https://api"))),
            Event::Secret(Ok(secret(vec![("username", encoded("root"))]))),
        ],
    );
    assert_eq!(
        result,
        Some(Err(OperatorError::InternalServerError {
            message: "Admin password not found in secret".to_string(),
        }))
    );
}

#[test]
fn refused_login_ends_an_import() {
    let (_, result) = import(
        &make_test_spec(),
        &[
            Event::Cluster(Ok(cluster("main", "https://api"))),
            Event::Secret(Ok(admin_secret())),
            json_event(200, "{}"),
        ],
    );
    assert_eq!(
        result,
        Some(Err(OperatorError::AuthError {
            message: "No token received from authentication".to_string(),
        }))
    );
}

#[test]
fn import_ignores_what_answers_nothing() {
    let spec = make_test_spec();
    let flow = ImportFlow::start(&spec, "prod");
    match flow.advance(&text_event(500, "late")) {
        ImportTurn::Waiting(flow) => {
            assert_eq!(label(&flow.command()), "cluster prod/test-cluster")
        }
        ImportTurn::Done(result) => panic!("done: {:?}", result),
    }
}

#[test]
fn slashes_after_the_url_make_no_difference() {
    let spec = make_test_spec();
    for url in ["https://api", "https://api/", "https://api///"] {
        let mut events = connect_events();
        events[0] = Event::Cluster(Ok(cluster("main", url)));
        events.push(text_event(201, ""));
        let (done, _) = import(&spec, &events);
        assert_eq!(done[3], "text POST https://api/realms [tok]");
    }
}

#[test]
fn cleanup_deletes_the_realm() {
    let mut events = connect_events();
    events.push(text_event(204, ""));
    let (done, result) = cleanup(&make_test_spec(), &events);
    assert_eq!(
        done,
        vec![
            "cluster prod/test-cluster",
            "secret prod/ferriskey-admin-main",
            "json POST https://api/realms/master/login-actions/authenticate []",
            "text DELETE https://api/realms/test-realm [tok]",
        ]
    );
    assert_eq!(result, Some(Ok(())));
}

#[test]
fn cleanup_can_be_repeated() {
    let mut events = connect_events();
    events.push(text_event(404, "gone"));
    assert_eq!(cleanup(&make_test_spec(), &events).1, Some(Ok(())));
}

#[test]
fn cleanup_fails_where_the_realm_stays() {
    let mut events = connect_events();
    events.push(text_event(500, "oops"));
    assert_eq!(
        cleanup(&make_test_spec(), &events).1,
        Some(Err(OperatorError::RealmImportError {
            message: "Failed to delete realm 'test-realm': HTTP 500 Internal Server Error - oops"
                .to_string(),
        }))
    );
}

#[test]
fn cleanup_fails_where_the_cluster_is_missing() {
    let (done, result) = cleanup(
        &make_test_spec(),
        &[Event::Cluster(Err("NotFound".to_string()))],
    );
    assert_eq!(done.len(), 1);
    assert!(matches!(
        result,
        Some(Err(OperatorError::ClusterNotFound { .. }))
    ));
}

#[test]
fn cleanup_ignores_what_answers_nothing() {
    let spec = make_test_spec();
    match CleanupFlow::start(&spec, "prod").advance(&text_event(204, "")) {
        CleanupTurn::Waiting(flow) => {
            assert_eq!(label(&flow.command()), "cluster prod/test-cluster")
        }
        CleanupTurn::Done(result) => panic!("done: {:?}", result),
    }
}

#[test]
fn credentials_are_decoded() {
    assert_eq!(
        admin_credentials(&admin_secret()),
        Ok(("root".to_string(), "pa55".to_string()))
    );
    let plain = secret(vec![
        ("username", b"YWRtaW4=".to_vec()),
        ("password", b"c2VjcmV0".to_vec()),
    ]);
    assert_eq!(
        admin_credentials(&plain),
        Ok(("admin".to_string(), "secret".to_string()))
    );
}

#[test]
fn user_name_falls_back_to_admin() {
    let only_password = secret(vec![("password", encoded("pw"))]);
    let expected = Ok(("admin".to_string(), "pw".to_string()));
    assert_eq!(admin_credentials(&only_password), expected);
    let not_base64 = secret(vec![
        ("password", encoded("pw")),
        ("username", b"not base64".to_vec()),
    ]);
    assert_eq!(admin_credentials(&not_base64), expected);
    // base64 of two bytes that are no UTF-8
    let not_text = secret(vec![
        ("password", encoded("pw")),
        ("username", b"//4=".to_vec()),
    ]);
    assert_eq!(admin_credentials(&not_text), expected);
    assert_eq!(credentials_from(None, Some("pw".to_string())), expected);
}

#[test]
fn password_has_no_fallback() {
    let missing = Err(OperatorError::InternalServerError {
        message: "Admin password not found in secret".to_string(),
    });
    assert_eq!(admin_credentials(&SecretData { data: None }), missing);
    assert_eq!(admin_credentials(&secret(vec![])), missing);
    assert_eq!(
        admin_credentials(&secret(vec![("password", b"%".to_vec())])),
        missing
    );
    assert_eq!(
        admin_credentials(&secret(vec![("password", b"/w==".to_vec())])),
        missing
    );
    assert_eq!(credentials_from(Some("root".to_string()), None), missing);
}

#[test]
fn text_may_be_empty_or_beyond_ascii() {
    let entries = secret(vec![("username", encoded("")), ("password", encoded("pässwörd"))]);
    assert_eq!(entries.text("username"), Some("".to_string()));
    assert_eq!(entries.text("password"), Some("pässwörd".to_string()));
    assert_eq!(entries.text("token"), None);
}

#[test]
fn secret_is_named_after_the_cluster() {
    assert_eq!(admin_secret_name("main"), "ferriskey-admin-main");
}

#[test]
fn trailing_slashes_are_trimmed() {
    assert_eq!(trim_trailing_slashes("https://api//"), "https://api");
    assert_eq!(trim_trailing_slashes("/a/b"), "/a/b");
    assert_eq!(trim_trailing_slashes("///"), "");
    assert_eq!(trim_trailing_slashes(""), "");
    assert_eq!(trim_trailing_slashes("ü/"), "ü");
}

#[test]
fn numerals_have_no_leading_zeros() {
    assert_eq!(decimal_text(0), "0");
    assert_eq!(decimal_text(9), "9");
    assert_eq!(decimal_text(10), "10");
    assert_eq!(decimal_text(1234567890), "1234567890");
    assert_eq!(decimal_text(u64::MAX), u64::MAX.to_string());
}
