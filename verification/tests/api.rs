use ferriskey_operator::api::{
    authenticate_outcome, authenticate_reply, authenticate_request, create_client_outcome,
    create_client_reply, create_client_request, create_realm_reply, create_realm_request,
    create_redirect_reply, create_redirect_request, create_role_reply, create_role_request,
    delete_realm_reply, delete_realm_request,
};
use ferriskey_operator::entities::{ClientImport, RoleImport};
use ferriskey_operator::error::OperatorError;
use ferriskey_operator::http::{
    HttpRequest, HttpStatus, JsonDelivery, JsonReply, Method, TextDelivery,
};
use ferriskey_operator::json::Json;

const SERVER: &str = "http://127.0.0.1:9000";

fn status(code: u16) -> HttpStatus {
    HttpStatus::from_u16(code).unwrap()
}

fn json_answer(code: u16, body: &str) -> JsonDelivery {
    JsonDelivery::Answered {
        status: status(code),
        body: Ok(body.as_bytes().to_vec()),
    }
}

fn text_answer(code: u16, text: &str) -> TextDelivery {
    TextDelivery::Answered {
        status: status(code),
        text: text.to_string(),
    }
}

fn unsent() -> TextDelivery {
    TextDelivery::Failed {
        error: "connection refused".to_string(),
    }
}

fn text(s: &str) -> Json {
    Json::Text(s.to_string())
}

fn member(name: &str, value: Json) -> (String, Json) {
    (name.to_string(), value)
}

fn posted(path: &str, bearer: Option<&str>, members: Vec<(String, Json)>) -> HttpRequest {
    HttpRequest {
        method: Method::Post,
        url: format!("{}{}", SERVER, path),
        bearer: bearer.map(String::from),
        body: Some(Json::Object(members)),
    }
}

fn auth_error(message: &str) -> OperatorError {
    OperatorError::AuthError {
        message: message.to_string(),
    }
}

fn import_error(message: &str) -> OperatorError {
    OperatorError::RealmImportError {
        message: message.to_string(),
    }
}

fn plain_client(client_id: &str) -> ClientImport {
    ClientImport {
        client_id: client_id.to_string(),
        name: None,
        enabled: true,
        public_client: false,
        secret: None,
        protocol: None,
        redirect_uris: vec![],
        client_type: None,
        direct_access_grants_enabled: false,
        service_accounts_enabled: false,
        roles: vec![],
    }
}

#[test]
fn test_authenticate_success() {
    assert_eq!(
        authenticate_request(SERVER, "admin", "password"),
        posted(
            "/realms/master/login-actions/authenticate",
            None,
            vec![
                member("username", text("admin")),
                member("password", text("password")),
            ]
        )
    );
    let result = authenticate_reply(&json_answer(
        200,
        r#"{"token": "test-token-123", "status": "SUCCESS", "message": "Authenticated"}"#,
    ));

    assert!(result.is_ok());
    assert_eq!(result.unwrap(), "test-token-123");
}

#[test]
fn test_authenticate_failure() {
    let request = authenticate_request(SERVER, "admin", "wrong-password");
    assert_eq!(request.method, Method::Post);
    assert_eq!(
        request.url,
        format!("{}/realms/master/login-actions/authenticate", SERVER)
    );
    let result = authenticate_reply(&json_answer(401, r#"{"error": "Invalid credentials"}"#));

    assert!(result.is_err());
    match result.unwrap_err() {
        OperatorError::AuthError { message } => {
            assert!(message.contains("Authentication failed"));
            assert_eq!(
                message,
                "Authentication failed with status 401 Unauthorized: \
                 Object {\"error\": String(\"Invalid credentials\")}"
            );
        }
        _ => panic!("Expected AuthError"),
    }
}

#[test]
fn test_create_realm_success() {
    assert_eq!(
        create_realm_request(
            SERVER,
            "test-token",
            "test-realm",
            &Some("Test Realm".to_string()),
            true
        ),
        posted(
            "/realms",
            Some("test-token"),
            vec![
                member("name", text("test-realm")),
                member("displayName", text("Test Realm")),
                member("enabled", Json::Bool(true)),
            ]
        )
    );
    let reply = r#"{"id": "00000000-0000-0000-0000-000000000001", "name": "test-realm",
        "created_at": "2024-01-01T00:00:00Z", "updated_at": "2024-01-01T00:00:00Z"}"#;
    let result = create_realm_reply("test-realm", &text_answer(201, reply));

    assert!(result.is_ok());
}

#[test]
fn test_create_realm_failure() {
    assert_eq!(
        create_realm_request(SERVER, "test-token", "existing-realm", &None, true),
        posted(
            "/realms",
            Some("test-token"),
            vec![
                member("name", text("existing-realm")),
                member("enabled", Json::Bool(true)),
            ]
        )
    );
    let result = create_realm_reply(
        "existing-realm",
        &text_answer(409, r#"{"error":"Realm already exists"}"#),
    );

    assert!(result.is_err());
    match result.unwrap_err() {
        OperatorError::RealmImportError { message } => {
            assert!(message.contains("409") || message.contains("already exists"));
            assert_eq!(
                message,
                "Failed to create realm 'existing-realm': HTTP 409 Conflict - \
                 {\"error\":\"Realm already exists\"}"
            );
        }
        _ => panic!("Expected RealmImportError"),
    }
}

#[test]
fn test_delete_realm_success() {
    assert_eq!(
        delete_realm_request(SERVER, "test-token", "test-realm"),
        HttpRequest {
            method: Method::Delete,
            url: format!("{}/realms/test-realm", SERVER),
            bearer: Some("test-token".to_string()),
            body: None,
        }
    );
    let result = delete_realm_reply("test-realm", &text_answer(204, ""));

    assert!(result.is_ok());
}

#[test]
fn test_delete_realm_not_found() {
    let request = delete_realm_request(SERVER, "test-token", "non-existent");
    assert_eq!(request.url, format!("{}/realms/non-existent", SERVER));
    let result = delete_realm_reply("non-existent", &text_answer(404, ""));

    // 404 should be accepted (idempotent cleanup)
    assert!(result.is_ok());
}

#[test]
fn test_create_client_success() {
    let client = ClientImport {
        client_id: "test-client".to_string(),
        name: Some("Test Client".to_string()),
        enabled: true,
        public_client: false,
        secret: Some("test-secret".to_string()),
        protocol: Some("openid-connect".to_string()),
        redirect_uris: vec![],
        client_type: Some("confidential".to_string()),
        direct_access_grants_enabled: false,
        service_accounts_enabled: false,
        roles: vec![],
    };
    assert_eq!(
        create_client_request(SERVER, "test-token", "test-realm", &client),
        posted(
            "/realms/test-realm/clients",
            Some("test-token"),
            vec![
                member("clientId", text("test-client")),
                member("name", text("Test Client")),
                member("enabled", Json::Bool(true)),
                member("publicClient", Json::Bool(false)),
                member("clientType", text("confidential")),
                member("protocol", text("openid-connect")),
                member("directAccessGrantsEnabled", Json::Bool(false)),
                member("serviceAccountsEnabled", Json::Bool(false)),
                member("secret", text("test-secret")),
            ]
        )
    );
    let reply = r#"{"id": "11111111-1111-1111-1111-111111111111", "client_id": "test-client",
        "name": "Test Client", "enabled": true, "public_client": false,
        "protocol": "openid-connect", "client_type": "confidential",
        "direct_access_grants_enabled": false, "service_accounts_enabled": false,
        "created_at": "2024-01-01T00:00:00Z", "updated_at": "2024-01-01T00:00:00Z",
        "realm_id": "00000000-0000-0000-0000-000000000001"}"#;
    let result = create_client_reply("test-realm", "test-client", &json_answer(201, reply));

    assert!(result.is_ok());
    assert_eq!(result.unwrap(), "11111111-1111-1111-1111-111111111111");
}

#[test]
fn test_create_role_realm_level_success() {
    let role = RoleImport {
        name: "realm-role".to_string(),
        description: None,
        permissions: vec!["read".to_string(), "write".to_string()],
    };
    assert_eq!(
        create_role_request(SERVER, "test-token", "test-realm", None, &role),
        posted(
            "/realms/test-realm/roles",
            Some("test-token"),
            vec![
                member("name", text("realm-role")),
                member("description", Json::Null),
                member(
                    "permissions",
                    Json::Array(vec![text("read"), text("write")])
                ),
            ]
        )
    );
    let reply = r#"{"id": "22222222-2222-2222-2222-222222222222", "name": "realm-role",
        "permissions": ["read", "write"],
        "realm_id": "00000000-0000-0000-0000-000000000001"}"#;
    let result = create_role_reply("test-realm", "realm-role", &text_answer(201, reply));

    assert!(result.is_ok());
}

#[test]
fn test_create_role_client_level_success() {
    let role = RoleImport {
        name: "client-role".to_string(),
        description: None,
        permissions: vec!["read".to_string()],
    };
    let request = create_role_request(
        SERVER,
        "test-token",
        "test-realm",
        Some("client-uuid-123"),
        &role,
    );
    assert_eq!(
        request.url,
        format!("{}/realms/test-realm/clients/client-uuid-123/roles", SERVER)
    );
    assert_eq!(request.method, Method::Post);
    assert_eq!(request.bearer, Some("test-token".to_string()));
    let reply = r#"{"id": "33333333-3333-3333-3333-333333333333", "name": "client-role",
        "permissions": ["read"], "realm_id": "00000000-0000-0000-0000-000000000001",
        "client_id": "client-uuid-123"}"#;
    let result = create_role_reply("test-realm", "client-role", &text_answer(201, reply));

    assert!(result.is_ok());
}

#[test]
fn test_create_client_with_redirect_uri() {
    let client = ClientImport {
        client_id: "redirect-client".to_string(),
        name: Some("Redirect Client".to_string()),
        enabled: true,
        public_client: false,
        secret: None,
        protocol: None,
        redirect_uris: vec!["https://app.example.com/*".to_string()],
        client_type: Some("confidential".to_string()),
        direct_access_grants_enabled: false,
        service_accounts_enabled: false,
        roles: vec![],
    };
    let request = create_client_request(SERVER, "test-token", "test-realm", &client);
    assert_eq!(request.url, format!("{}/realms/test-realm/clients", SERVER));
    let reply = r#"{"id": "client-uuid-456", "client_id": "redirect-client",
        "name": "Redirect Client", "enabled": true, "public_client": false,
        "protocol": "openid-connect", "client_type": "confidential",
        "direct_access_grants_enabled": false, "service_accounts_enabled": false,
        "created_at": "2024-01-01T00:00:00Z", "updated_at": "2024-01-01T00:00:00Z",
        "realm_id": "00000000-0000-0000-0000-000000000001"}"#;
    let result = create_client_reply("test-realm", "redirect-client", &json_answer(201, reply));

    assert!(result.is_ok());
    let uuid = result.unwrap();
    assert_eq!(uuid, "client-uuid-456");

    let uri = &client.redirect_uris[0];
    assert_eq!(
        create_redirect_request(SERVER, "test-token", "test-realm", &uuid, uri),
        posted(
            "/realms/test-realm/clients/client-uuid-456/redirects",
            Some("test-token"),
            vec![member("redirectUri", text("https://app.example.com/*"))]
        )
    );
    let reply = r#"{"id": "redirect-uuid-789", "redirect_uri": "https://app.example.com/*"}"#;
    assert_eq!(
        create_redirect_reply(uri, "redirect-client", &text_answer(201, reply)),
        Ok(true)
    );
}

#[test]
fn test_create_client_api_error() {
    let client = ClientImport {
        client_id: "bad-client".to_string(),
        name: None,
        enabled: true,
        public_client: false,
        secret: None,
        protocol: None,
        redirect_uris: vec![],
        client_type: Some("confidential".to_string()),
        direct_access_grants_enabled: false,
        service_accounts_enabled: false,
        roles: vec![],
    };
    let request = create_client_request(SERVER, "test-token", "test-realm", &client);
    assert_eq!(request.url, format!("{}/realms/test-realm/clients", SERVER));
    let result = create_client_reply(
        "test-realm",
        "bad-client",
        &json_answer(400, r#"{"error": "Invalid client configuration"}"#),
    );

    assert!(result.is_err());
    assert_eq!(
        result.unwrap_err(),
        import_error(
            "Failed to create client 'bad-client': HTTP 400 Bad Request - \
             Object {\"error\": String(\"Invalid client configuration\")}"
        )
    );
}

#[test]
fn realm_body_tells_whether_the_realm_is_enabled() {
    assert_eq!(
        create_realm_request(SERVER, "t", "r", &None, false),
        posted(
            "/realms",
            Some("t"),
            vec![
                member("name", text("r")),
                member("enabled", Json::Bool(false)),
            ]
        )
    );
}

#[test]
fn conflicts_are_told_from_other_replies() {
    assert!(text_answer(409, "").is_conflict());
    assert!(!text_answer(201, "").is_conflict());
    assert!(!text_answer(400, "").is_conflict());
    assert!(!unsent().is_conflict());
    assert!(json_answer(409, "{}").is_conflict());
    assert!(!json_answer(408, "{}").is_conflict());
    let unsent = JsonDelivery::Failed {
        error: "connection refused".to_string(),
    };
    assert!(!unsent.is_conflict());
}

#[test]
fn login_needs_a_token() {
    let none = auth_error("No token received from authentication");
    for body in [
        "{}",
        r#"{"token": ""}"#,
        r#"{"token": 7}"#,
        r#"{"token": null}"#,
        r#"["token"]"#,
        r#""token""#,
    ] {
        assert_eq!(authenticate_reply(&json_answer(200, body)), Err(none.clone()));
    }
}

#[test]
fn login_reports_why_it_could_not_be_tried() {
    let unsent = JsonDelivery::Failed {
        error: "connection refused".to_string(),
    };
    assert_eq!(
        authenticate_reply(&unsent),
        Err(auth_error("Authentication request failed: connection refused"))
    );
    let cut_off = JsonDelivery::Answered {
        status: status(200),
        body: Err("connection reset".to_string()),
    };
    assert_eq!(
        authenticate_reply(&cut_off),
        Err(auth_error("Failed to parse auth response: connection reset"))
    );
}

#[test]
fn login_reply_that_is_no_json_is_an_error() {
    for body in ["", "<html>", r#"{"token": "t"} x"#] {
        assert_eq!(
            authenticate_reply(&json_answer(200, body)),
            Err(auth_error(
                "Failed to parse auth response: error decoding response body"
            ))
        );
    }
}

#[test]
fn login_outcome_reads_the_reply() {
    let reply = JsonReply {
        members: vec![
            ("status".to_string(), Some("SUCCESS".to_string())),
            ("token".to_string(), Some("t".to_string())),
        ],
        debug: "D".to_string(),
    };
    assert_eq!(authenticate_outcome(status(200), &reply), Ok("t".to_string()));
    assert_eq!(authenticate_outcome(status(299), &reply), Ok("t".to_string()));
    assert_eq!(
        authenticate_outcome(status(300), &reply),
        Err(auth_error(
            "Authentication failed with status 300 Multiple Choices: D"
        ))
    );
    assert_eq!(
        authenticate_outcome(status(199), &reply),
        Err(auth_error(
            "Authentication failed with status 199 <unknown status code>: D"
        ))
    );
}

#[test]
fn unsent_requests_are_import_errors() {
    assert_eq!(
        create_realm_reply("r", &unsent()),
        Err(import_error("Failed to create realm 'r': connection refused"))
    );
    assert_eq!(
        delete_realm_reply("r", &unsent()),
        Err(import_error("Failed to delete realm 'r': connection refused"))
    );
    assert_eq!(
        create_role_reply("r", "admin", &unsent()),
        Err(import_error(
            "Failed to create role 'admin' in realm 'r': connection refused"
        ))
    );
    assert_eq!(
        create_redirect_reply("u", "c", &unsent()),
        Err(import_error(
            "Failed to create redirect URI 'u' for client 'c': connection refused"
        ))
    );
    let unsent = JsonDelivery::Failed {
        error: "connection refused".to_string(),
    };
    assert_eq!(
        create_client_reply("r", "c", &unsent),
        Err(import_error(
            "Failed to create client 'c' in realm 'r': connection refused"
        ))
    );
}

#[test]
fn refused_requests_name_their_status() {
    assert_eq!(
        delete_realm_reply("r", &text_answer(500, "oops")),
        Err(import_error(
            "Failed to delete realm 'r': HTTP 500 Internal Server Error - oops"
        ))
    );
    assert_eq!(
        create_role_reply("r", "admin", &text_answer(403, "no")),
        Err(import_error(
            "Failed to create role 'admin': HTTP 403 Forbidden - no"
        ))
    );
    assert_eq!(
        create_realm_reply("r", &text_answer(404, "")),
        Err(import_error("Failed to create realm 'r': HTTP 404 Not Found - "))
    );
}

#[test]
fn refused_redirect_is_no_error() {
    assert_eq!(
        create_redirect_reply("u", "c", &text_answer(422, "bad URI")),
        Ok(false)
    );
}

#[test]
fn client_reply_that_cannot_be_read_is_an_error() {
    let unreadable = import_error("Failed to parse response creating client 'c'");
    assert_eq!(
        create_client_reply("r", "c", &json_answer(201, "not json")),
        Err(unreadable.clone())
    );
    let cut_off = JsonDelivery::Answered {
        status: status(201),
        body: Err("connection reset".to_string()),
    };
    assert_eq!(create_client_reply("r", "c", &cut_off), Err(unreadable));
}

#[test]
fn client_reply_needs_a_uuid() {
    let none = import_error("No client UUID returned for client 'c'");
    for body in ["{}", r#"{"id": 5}"#, "[]", "null"] {
        assert_eq!(
            create_client_reply("r", "c", &json_answer(201, body)),
            Err(none.clone())
        );
    }
    // An empty UUID is taken as it is.
    assert_eq!(
        create_client_reply("r", "c", &json_answer(201, r#"{"id": ""}"#)),
        Ok("".to_string())
    );
}

#[test]
fn client_outcome_reads_the_reply() {
    let reply = JsonReply {
        members: vec![("id".to_string(), Some("u".to_string()))],
        debug: "D".to_string(),
    };
    assert_eq!(
        create_client_outcome("c", status(201), &reply),
        Ok("u".to_string())
    );
    assert_eq!(
        create_client_outcome("c", status(409), &reply),
        Err(import_error(
            "Failed to create client 'c': HTTP 409 Conflict - D"
        ))
    );
}

#[test]
fn client_defaults_fill_in() {
    let mut client = plain_client("c");
    let members = |client: &ClientImport| match create_client_request("", "t", "r", client).body {
        Some(Json::Object(members)) => members,
        other => panic!("no object: {:?}", other),
    };
    assert_eq!(
        members(&client),
        vec![
            member("clientId", text("c")),
            member("name", text("c")),
            member("enabled", Json::Bool(true)),
            member("publicClient", Json::Bool(false)),
            member("clientType", text("confidential")),
            member("protocol", text("openid-connect")),
            member("directAccessGrantsEnabled", Json::Bool(false)),
            member("serviceAccountsEnabled", Json::Bool(false)),
        ]
    );
    client.public_client = true;
    assert_eq!(members(&client)[4], member("clientType", text("public")));
    client.client_type = Some("system".to_string());
    assert_eq!(members(&client)[4], member("clientType", text("system")));
}

#[test]
fn reply_text_takes_the_first_of_its_name() {
    let reply = JsonReply {
        members: vec![
            ("a".to_string(), None),
            ("b".to_string(), Some("1".to_string())),
            ("b".to_string(), Some("2".to_string())),
        ],
        debug: "".to_string(),
    };
    assert_eq!(reply.text("b"), Some("1".to_string()));
    assert_eq!(reply.text("a"), None);
    assert_eq!(reply.text("c"), None);
}

#[test]
fn statuses_have_three_digits() {
    assert!(HttpStatus::from_u16(99).is_none());
    assert!(HttpStatus::from_u16(1000).is_none());
    assert_eq!(status(100).as_u16(), 100);
    assert_eq!(status(999).as_u16(), 999);
    assert!(!status(199).is_success());
    assert!(status(200).is_success());
    assert!(status(299).is_success());
    assert!(!status(300).is_success());
}

#[test]
fn statuses_describe_themselves() {
    assert_eq!(status(200).describe(), "200 OK");
    assert_eq!(status(404).describe(), "404 Not Found");
    assert_eq!(status(799).describe(), "799 <unknown status code>");
}

#[test]
fn bodies_name_each_member_once() {
    let mut client = plain_client("c");
    client.secret = Some("s".to_string());
    let role = RoleImport {
        name: "admin".to_string(),
        description: None,
        permissions: vec![],
    };
    for request in [
        authenticate_request(SERVER, "u", "p"),
        create_realm_request(SERVER, "t", "r", &Some("R".to_string()), true),
        create_client_request(SERVER, "t", "r", &client),
        create_role_request(SERVER, "t", "r", None, &role),
        create_redirect_request(SERVER, "t", "r", "uuid", "uri"),
    ] {
        let members = match request.body {
            Some(Json::Object(members)) => members,
            other => panic!("no object: {:?}", other),
        };
        let mut names: Vec<&str> = members.iter().map(|(name, _)| name.as_str()).collect();
        names.sort();
        names.dedup();
        assert_eq!(names.len(), members.len());
    }
}
