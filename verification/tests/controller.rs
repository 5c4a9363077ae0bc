use ferriskey_operator::controller::{
    convert_to_domain_spec, error_policy_import, report_import, settle_cleanup, settle_finalizer,
    status_patch, update_import_status_reply, Action, FinalizerFailure, ImportFailure,
    REALM_IMPORT_FINALIZER,
};
use ferriskey_operator::crds::{
    ClientImportSpec, ClusterCondition, ClusterRefSpec, FerrisKeyClusterStatus,
    FerrisKeyRealmImport, FerrisKeyRealmImportSpec, FerrisKeyRealmImportStatus, ObjectMeta,
    RealmImportSpec, RoleImportSpec,
};
use ferriskey_operator::entities::RealmImportStatus;
use ferriskey_operator::error::OperatorError;
use ferriskey_operator::json::Json;
use ferriskey_operator::reconcile::{
    FinalizerEvent, ReconcileCommand, ReconcileEvent, ReconcileTurn, Reconciliation,
};

fn make_import(
    cluster_name: &str,
    realm_name: &str,
    display_name: Option<&str>,
    enabled: bool,
    realm_roles: Vec<RoleImportSpec>,
    clients: Vec<ClientImportSpec>,
) -> FerrisKeyRealmImport {
    FerrisKeyRealmImport {
        metadata: Default::default(),
        spec: FerrisKeyRealmImportSpec {
            cluster_ref: ClusterRefSpec {
                name: cluster_name.to_string(),
            },
            realm: RealmImportSpec {
                name: realm_name.to_string(),
                display_name: display_name.map(String::from),
                enabled,
                realm_roles,
                clients,
            },
        },
        status: None,
    }
}

fn make_role(name: &str, description: Option<&str>, permissions: Vec<&str>) -> RoleImportSpec {
    RoleImportSpec {
        name: name.to_string(),
        description: description.map(String::from),
        permissions: permissions.into_iter().map(String::from).collect(),
    }
}

fn make_client(
    client_id: &str,
    name: Option<&str>,
    enabled: bool,
    public_client: bool,
    secret: Option<&str>,
    redirect_uris: Vec<&str>,
    roles: Vec<RoleImportSpec>,
) -> ClientImportSpec {
    ClientImportSpec {
        client_id: client_id.to_string(),
        name: name.map(String::from),
        enabled,
        public_client,
        secret: secret.map(String::from),
        protocol: None,
        redirect_uris: redirect_uris.into_iter().map(String::from).collect(),
        client_type: if public_client { Some("public".to_string()) } else { Some("confidential".to_string()) },
        direct_access_grants_enabled: false,
        service_accounts_enabled: false,
        roles,
    }
}

#[test]
fn test_convert_full_spec() {
    let import = make_import(
        "my-cluster",
        "myrealm",
        Some("My Realm"),
        true,
        vec![make_role("admin", Some("Administrator"), vec!["read", "write"])],
        vec![make_client(
            "my-app",
            Some("My App"),
            true,
            false,
            Some("super-secret"),
            vec!["https://app.example.com/*"],
            vec![make_role("app-admin", Some("App Admin"), vec!["read"])],
        )],
    );

    let domain = convert_to_domain_spec(&import);

    assert_eq!(domain.cluster_ref.name, "my-cluster");
    assert_eq!(domain.realm.name, "myrealm");
    assert_eq!(domain.realm.display_name, Some("My Realm".to_string()));
    assert!(domain.realm.enabled);
    assert_eq!(domain.realm.realm_roles.len(), 1);
    assert_eq!(domain.realm.realm_roles[0].name, "admin");
    assert_eq!(
        domain.realm.realm_roles[0].description,
        Some("Administrator".to_string())
    );
    assert_eq!(domain.realm.realm_roles[0].permissions, vec!["read", "write"]);
    assert_eq!(domain.realm.clients.len(), 1);
    assert_eq!(domain.realm.clients[0].client_id, "my-app");
    assert_eq!(domain.realm.clients[0].secret, Some("super-secret".to_string()));
    assert_eq!(
        domain.realm.clients[0].redirect_uris,
        vec!["https://app.example.com/*"]
    );
    assert_eq!(domain.realm.clients[0].roles.len(), 1);
    assert_eq!(domain.realm.clients[0].roles[0].name, "app-admin");
}

#[test]
fn test_convert_minimal_spec() {
    let import = make_import(
        "my-cluster",
        "testrealm",
        None,
        true,
        vec![],
        vec![],
    );

    let domain = convert_to_domain_spec(&import);

    assert_eq!(domain.cluster_ref.name, "my-cluster");
    assert_eq!(domain.realm.name, "testrealm");
    assert_eq!(domain.realm.display_name, None);
    assert!(domain.realm.enabled);
    assert!(domain.realm.realm_roles.is_empty());
    assert!(domain.realm.clients.is_empty());
}

#[test]
fn test_convert_disabled_realm() {
    let import = make_import(
        "my-cluster",
        "disabled-realm",
        None,
        false,
        vec![],
        vec![],
    );

    let domain = convert_to_domain_spec(&import);
    assert!(!domain.realm.enabled);
}

#[test]
fn test_convert_multiple_clients() {
    let import = make_import(
        "my-cluster",
        "multi-client-realm",
        None,
        true,
        vec![],
        vec![
            make_client("client-a", None, true, true, None, vec![], vec![]),
            make_client("client-b", None, false, false, Some("secret-b"), vec![], vec![]),
            make_client(
                "client-c",
                Some("Client C"),
                true,
                true,
                None,
                vec!["https://c.example.com/*"],
                vec![],
            ),
        ],
    );

    let domain = convert_to_domain_spec(&import);

    assert_eq!(domain.realm.clients.len(), 3);
    assert_eq!(domain.realm.clients[0].client_id, "client-a");
    assert!(domain.realm.clients[0].public_client);
    assert_eq!(domain.realm.clients[1].client_id, "client-b");
    assert!(!domain.realm.clients[1].enabled);
    assert_eq!(domain.realm.clients[1].secret, Some("secret-b".to_string()));
    assert_eq!(domain.realm.clients[2].name, Some("Client C".to_string()));
    assert_eq!(
        domain.realm.clients[2].redirect_uris,
        vec!["https://c.example.com/*"]
    );
}

#[test]
fn test_convert_multiple_realm_roles() {
    let import = make_import(
        "my-cluster",
        "multi-role-realm",
        None,
        true,
        vec![
            make_role("viewer", Some("Can view"), vec!["read"]),
            make_role("editor", Some("Can edit"), vec!["read", "write"]),
            make_role("admin", Some("Can do everything"), vec!["read", "write", "delete", "manage"]),
        ],
        vec![],
    );

    let domain = convert_to_domain_spec(&import);

    assert_eq!(domain.realm.realm_roles.len(), 3);
    assert_eq!(domain.realm.realm_roles[0].permissions, vec!["read"]);
    assert_eq!(domain.realm.realm_roles[1].permissions, vec!["read", "write"]);
    assert_eq!(
        domain.realm.realm_roles[2].permissions,
        vec!["read", "write", "delete", "manage"]
    );
    assert_eq!(domain.realm.realm_roles[2].description, Some("Can do everything".to_string()));
}

#[test]
fn test_convert_nested_client_roles() {
    let import = make_import(
        "my-cluster",
        "nested-roles",
        None,
        true,
        vec![],
        vec![make_client(
            "my-app",
            None,
            true,
            false,
            Some("secret"),
            vec![],
            vec![
                make_role("role-a", None, vec!["read"]),
                make_role("role-b", Some("Role B"), vec!["read", "write"]),
            ],
        )],
    );

    let domain = convert_to_domain_spec(&import);

    assert_eq!(domain.realm.clients[0].roles.len(), 2);
    assert_eq!(domain.realm.clients[0].roles[0].name, "role-a");
    assert!(domain.realm.clients[0].roles[0].description.is_none());
    assert_eq!(domain.realm.clients[0].roles[1].name, "role-b");
    assert_eq!(domain.realm.clients[0].roles[1].description, Some("Role B".to_string()));
}

#[test]
fn test_convert_public_client_defaults() {
    let import = make_import(
        "my-cluster",
        "public-client-realm",
        None,
        true,
        vec![],
        vec![make_client(
            "public-app",
            None,
            true,
            true,
            None,
            vec![],
            vec![],
        )],
    );

    let domain = convert_to_domain_spec(&import);

    assert!(domain.realm.clients[0].public_client);
    assert!(domain.realm.clients[0].secret.is_none());
    assert!(domain.realm.clients[0].redirect_uris.is_empty());
    assert!(domain.realm.clients[0].roles.is_empty());
}

fn text(s: &str) -> Json {
    Json::Text(s.to_string())
}

fn member(name: &str, value: Json) -> (String, Json) {
    (name.to_string(), value)
}

fn named_import(
    name: Option<&str>,
    prefix: Option<&str>,
    namespace: Option<&str>,
) -> FerrisKeyRealmImport {
    let mut import = make_import("my-cluster", "myrealm", None, true, vec![], vec![]);
    import.metadata = ObjectMeta {
        name: name.map(String::from),
        generate_name: prefix.map(String::from),
        namespace: namespace.map(String::from),
    };
    import
}

fn ready_status() -> RealmImportStatus {
    RealmImportStatus {
        ready: true,
        message: Some("imported".to_string()),
        phase: Some("Ready".to_string()),
    }
}

fn failure() -> ImportFailure {
    ImportFailure {
        error: OperatorError::AuthError { message: "no token".to_string() },
        text: "authentication error: no token".to_string(),
    }
}

#[test]
fn conversion_keeps_every_field() {
    let mut client = make_client("c", Some("C"), false, true, Some("s"), vec!["u1", "u2"], vec![]);
    client.protocol = Some("saml".to_string());
    client.client_type = Some("system".to_string());
    client.direct_access_grants_enabled = true;
    client.service_accounts_enabled = true;
    let import = make_import("k", "r", Some("R"), false, vec![], vec![client]);
    let converted = convert_to_domain_spec(&import);
    let client = &converted.realm.clients[0];
    assert_eq!(client.client_id, "c");
    assert_eq!(client.name, Some("C".to_string()));
    assert!(!client.enabled);
    assert!(client.public_client);
    assert_eq!(client.secret, Some("s".to_string()));
    assert_eq!(client.protocol, Some("saml".to_string()));
    assert_eq!(client.redirect_uris, vec!["u1", "u2"]);
    assert_eq!(client.client_type, Some("system".to_string()));
    assert!(client.direct_access_grants_enabled);
    assert!(client.service_accounts_enabled);
}

#[test]
fn namespace_falls_back_to_default() {
    assert_eq!(named_import(None, None, Some("prod")).namespace(), "prod");
    assert_eq!(named_import(None, None, None).namespace(), "default");
}

#[test]
fn name_falls_back_to_prefix_then_to_nothing() {
    assert_eq!(named_import(Some("a"), Some("b-"), None).name_any(), "a");
    assert_eq!(named_import(None, Some("b-"), None).name_any(), "b-");
    assert_eq!(named_import(None, None, None).name_any(), "");
}

#[test]
fn finalizer_has_its_name() {
    assert_eq!(REALM_IMPORT_FINALIZER, "ferriskey.rs/realm-import-finalizer");
}

#[test]
fn success_is_reported_and_looked_at_again() {
    let report = report_import(&named_import(Some("imp"), None, None), Ok(ready_status()));
    assert_eq!(report.name, "imp");
    assert!(report.status.ready);
    assert_eq!(report.status.message, Some("imported".to_string()));
    assert_eq!(report.status.phase, Some("Ready".to_string()));
    assert!(report.status.conditions.is_none());
    assert_eq!(report.outcome, Ok(Action::Requeue { seconds: 300 }));
}

#[test]
fn failure_is_reported_and_returned() {
    let report = report_import(&named_import(Some("imp"), None, None), Err(failure()));
    assert!(!report.status.ready);
    assert_eq!(
        report.status.message,
        Some("Import error: authentication error: no token".to_string())
    );
    assert_eq!(report.status.phase, Some("Error".to_string()));
    assert!(report.status.conditions.is_none());
    assert_eq!(
        report.outcome,
        Err(OperatorError::AuthError { message: "no token".to_string() })
    );
}

#[test]
fn status_patch_has_null_for_what_is_missing() {
    let patch = status_patch(&FerrisKeyRealmImportStatus::default());
    assert_eq!(
        patch,
        Json::Object(vec![member(
            "status",
            Json::Object(vec![
                member("ready", Json::Bool(false)),
                member("message", Json::Null),
                member("phase", Json::Null),
                member("conditions", Json::Null),
            ])
        )])
    );
}

#[test]
fn status_patch_lists_conditions() {
    let status = FerrisKeyRealmImportStatus {
        ready: true,
        message: Some("m".to_string()),
        phase: Some("Ready".to_string()),
        conditions: Some(vec![ClusterCondition {
            condition_type: "Ready".to_string(),
            status: "True".to_string(),
            last_transition_time: "2024-01-01T00:00:00Z".to_string(),
            reason: Some("Imported".to_string()),
            message: None,
        }]),
    };
    assert_eq!(
        status_patch(&status),
        Json::Object(vec![member(
            "status",
            Json::Object(vec![
                member("ready", Json::Bool(true)),
                member("message", text("m")),
                member("phase", text("Ready")),
                member(
                    "conditions",
                    Json::Array(vec![Json::Object(vec![
                        member("conditionType", text("Ready")),
                        member("status", text("True")),
                        member("lastTransitionTime", text("2024-01-01T00:00:00Z")),
                        member("reason", text("Imported")),
                        member("message", Json::Null),
                    ])])
                ),
            ])
        )])
    );
}

#[test]
fn failed_patch_is_an_internal_error() {
    assert_eq!(update_import_status_reply(Ok(())), Ok(()));
    assert_eq!(
        update_import_status_reply(Err("conflict".to_string())),
        Err(OperatorError::InternalServerError {
            message: "Failed to patch realm import status: conflict".to_string(),
        })
    );
}

#[test]
fn failed_cleanup_does_not_block_deletion() {
    assert_eq!(settle_cleanup(Ok(())), Ok(Action::AwaitChange));
    assert_eq!(
        settle_cleanup(Err(OperatorError::RealmImportError { message: "down".to_string() })),
        Ok(Action::AwaitChange)
    );
}

#[test]
fn resource_that_is_gone_is_no_finalizer_error() {
    let gone = FinalizerFailure { removal_code: Some(404), debug: "NotFound".to_string() };
    assert_eq!(settle_finalizer(Err(gone)), Ok(Action::AwaitChange));
    assert_eq!(
        settle_finalizer(Ok(Action::Requeue { seconds: 300 })),
        Ok(Action::Requeue { seconds: 300 })
    );
}

#[test]
fn other_finalizer_failures_are_internal_errors() {
    let conflict = FinalizerFailure { removal_code: Some(409), debug: "Conflict".to_string() };
    assert_eq!(
        settle_finalizer(Err(conflict)),
        Err(OperatorError::InternalServerError {
            message: "finalizer error: Conflict".to_string(),
        })
    );
    let apply = FinalizerFailure { removal_code: None, debug: "ApplyFailed".to_string() };
    assert_eq!(
        settle_finalizer(Err(apply)),
        Err(OperatorError::InternalServerError {
            message: "finalizer error: ApplyFailed".to_string(),
        })
    );
}

#[test]
fn failed_reconciliation_is_tried_again_soon() {
    let error = OperatorError::InvalidSpec { message: "x".to_string() };
    assert_eq!(error_policy_import(&error), Action::Requeue { seconds: 20 });
}

#[test]
fn statuses_start_empty() {
    let status = FerrisKeyClusterStatus::default();
    assert!(!status.ready);
    assert!(status.message.is_none());
    assert!(status.phase.is_none());
    assert!(status.conditions.is_none());
    assert!(status.database_status.is_none());
}

#[test]
fn apply_imports_then_writes_the_status() {
    let import = named_import(Some("imp"), None, Some("prod"));
    let flow = Reconciliation::start(&import, FinalizerEvent::Apply);
    assert_eq!(
        flow.command(),
        ReconcileCommand::Import {
            spec: convert_to_domain_spec(&import),
            namespace: "prod".to_string(),
        }
    );
    let flow = match flow.advance(ReconcileEvent::Imported(Err(failure()))) {
        ReconcileTurn::Waiting(flow) => flow,
        ReconcileTurn::Done(result) => panic!("done: {:?}", result),
    };
    let expected = report_import(&import, Err(failure()));
    assert_eq!(
        flow.command(),
        ReconcileCommand::PatchStatus {
            name: "imp".to_string(),
            namespace: "prod".to_string(),
            patch: status_patch(&expected.status),
        }
    );
    let unwritten = OperatorError::InternalServerError { message: "read-only".to_string() };
    match flow.advance(ReconcileEvent::Patched(Err(unwritten))) {
        ReconcileTurn::Done(result) => assert_eq!(
            result,
            Err(OperatorError::AuthError { message: "no token".to_string() })
        ),
        ReconcileTurn::Waiting(flow) => panic!("waiting: {:?}", flow),
    }
}

#[test]
fn successful_apply_ends_with_its_requeue() {
    let import = named_import(Some("imp"), None, None);
    let flow = Reconciliation::start(&import, FinalizerEvent::Apply);
    let flow = match flow.advance(ReconcileEvent::Imported(Ok(ready_status()))) {
        ReconcileTurn::Waiting(flow) => flow,
        ReconcileTurn::Done(result) => panic!("done: {:?}", result),
    };
    match flow.advance(ReconcileEvent::Patched(Ok(()))) {
        ReconcileTurn::Done(result) => assert_eq!(result, Ok(Action::Requeue { seconds: 300 })),
        ReconcileTurn::Waiting(flow) => panic!("waiting: {:?}", flow),
    }
}

#[test]
fn cleanup_is_a_single_step() {
    let import = named_import(Some("imp"), None, None);
    let flow = Reconciliation::start(&import, FinalizerEvent::Cleanup);
    assert_eq!(
        flow.command(),
        ReconcileCommand::Cleanup {
            spec: convert_to_domain_spec(&import),
            namespace: "default".to_string(),
        }
    );
    let down = OperatorError::RealmImportError { message: "down".to_string() };
    match flow.advance(ReconcileEvent::CleanedUp(Err(down))) {
        ReconcileTurn::Done(result) => assert_eq!(result, Ok(Action::AwaitChange)),
        ReconcileTurn::Waiting(flow) => panic!("waiting: {:?}", flow),
    }
}

#[test]
fn reconciliation_ignores_what_answers_nothing() {
    let import = named_import(Some("imp"), None, None);
    let flow = Reconciliation::start(&import, FinalizerEvent::Apply);
    match flow.advance(ReconcileEvent::CleanedUp(Ok(()))) {
        ReconcileTurn::Waiting(flow) => assert!(matches!(
            flow.command(),
            ReconcileCommand::Import { .. }
        )),
        ReconcileTurn::Done(result) => panic!("done: {:?}", result),
    }
}
