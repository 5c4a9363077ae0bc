//! What the operations yield, whatever they are given.
use crate::api::{
    authenticate_reply, authenticate_request, create_client_reply, create_client_request,
    create_realm_reply, create_realm_request, create_redirect_reply, create_redirect_request,
    create_role_reply, create_role_request, delete_realm_reply, delete_realm_request,
};
use crate::connect::{admin_secret_name, SessionView};
use crate::controller::{
    convert_to_domain_spec, error_policy_import, report_import, settle_cleanup, settle_finalizer,
    status_patch, update_import_status_reply, Action, FinalizerFailure, ImportFailure,
    ImportReport,
};
use crate::course_laws::{patches_tell_their_status, writes_status};
use crate::credentials::credentials_from;
use crate::crds::{FerrisKeyRealmImport, FerrisKeyRealmImportStatus};
use crate::data_laws::{
    conversion_keeps_every_field, number_of, numerals_stand_for_their_number, same_client,
    same_optional, same_roles,
};
use crate::entities::{ClientImport, RealmImportSpec, RealmImportStatus, RealmView, RoleImport};
use crate::error::OperatorError;
use crate::http::{parsed_reply, HttpRequest, HttpStatus, JsonDelivery, JsonReply, TextDelivery};
use crate::json::{Json, JsonView};
use crate::reply_laws::{
    clients_get_the_uuid_of_the_reply, first_is_text, logins_yield_the_token_of_the_reply,
    realms_are_created_by_success_only, realms_are_deleted_by_success_or_absence,
    roles_are_created_by_success_only, texts_are_those_of_first_members,
};
use crate::request_laws::{
    allows_redirect, client_requests_tell_the_client, creates_client, creates_realm, creates_role,
    delete_requests_name_the_realm, deletes_realm, logins_send_their_credentials, logs_in,
    realm_requests_tell_the_realm, redirect_requests_tell_the_uri, role_requests_tell_the_role,
    says, says_texts,
};
use crate::text::{decimal_text, trim_trailing_slashes, trimming_drops_only_slashes};
use vstd::prelude::*;

verus! {

// ---- Texts and statuses ----

/// A numeral is made of digits and stands for the number that it is made from.
pub proof fn numerals_yield_their_number(n: u64, text: String)
    requires
        call_ensures(decimal_text, (n,), text),
    ensures
        text@.len() > 0,
        number_of(text@) == n,
        forall|i: int| 0 <= i < text@.len() ==> '0' <= #[trigger] text@[i] <= '9',
        n > 0 ==> text@[0] != '0',
{
    numerals_stand_for_their_number(n as nat);
}

/// Trimming drops the slashes at the end and nothing else.
pub proof fn trimming_yields_the_rest(s: &str, trimmed: String)
    requires
        call_ensures(trim_trailing_slashes, (s,), trimmed),
    ensures
        trimmed@.is_prefix_of(s@),
        trimmed@.len() > 0 ==> trimmed@.last() != '/',
        forall|i: int| trimmed@.len() <= i < s@.len() ==> s@[i] == '/',
{
    trimming_drops_only_slashes(s@);
}

/// A status has the code that it is made from, which has three digits, and is a success exactly
/// from 200 to 299.
pub proof fn statuses_have_their_code(
    code: u16,
    made: Option<HttpStatus>,
    status: HttpStatus,
    read: u16,
    success: bool,
)
    requires
        call_ensures(HttpStatus::from_u16, (code,), made),
        made == Some(status) ==> call_ensures(HttpStatus::as_u16, (&status,), read),
        made == Some(status) ==> call_ensures(HttpStatus::is_success, (&status,), success),
    ensures
        made is Some <==> 100 <= code && code <= 999,
        made == Some(status) ==> read == code,
        made == Some(status) ==> (success <==> 200 <= code && code <= 299),
{
}

// ---- Requests ----

/// A login that is made carries the credentials that it is made from.
pub proof fn made_logins_carry_the_credentials(
    api_url: &str,
    username: &str,
    password: &str,
    request: HttpRequest,
)
    requires
        call_ensures(authenticate_request, (api_url, username, password), request),
    ensures
        logs_in(request@, api_url@, username@, password@),
        request.bearer is None,
        request.body matches Some(body) && says(body@, "username"@, JsonView::Text(username@))
            && says(body@, "password"@, JsonView::Text(password@)),
{
    logins_send_their_credentials(api_url@, username@, password@);
}

/// A request that is made to create a realm carries its name, its display name and whether it is
/// enabled.
pub proof fn made_realm_requests_carry_the_realm(
    api_url: &str,
    token: &str,
    realm_name: &str,
    display_name: &Option<String>,
    enabled: bool,
    request: HttpRequest,
)
    requires
        call_ensures(
            create_realm_request,
            (api_url, token, realm_name, display_name, enabled),
            request,
        ),
    ensures
        ({
            let realm = RealmView {
                name: realm_name@,
                display_name: match display_name {
                    Some(text) => Some(text@),
                    None => None,
                },
                enabled,
                realm_roles: Seq::empty(),
                clients: Seq::empty(),
            };
            creates_realm(
                request@,
                SessionView { api_url: api_url@, token: token@ },
                realm,
            )
        }),
        request.body matches Some(body) && says(body@, "enabled"@, JsonView::Bool(enabled)),
{
    let realm = RealmView {
        name: realm_name@,
        display_name: match display_name {
            Some(text) => Some(text@),
            None => None,
        },
        enabled,
        realm_roles: Seq::empty(),
        clients: Seq::empty(),
    };
    realm_requests_tell_the_realm(SessionView { api_url: api_url@, token: token@ }, realm);
}

/// A request that is made to create a client carries all the settings of the client.
pub proof fn made_client_requests_carry_the_client(
    api_url: &str,
    token: &str,
    realm_name: &str,
    client: &ClientImport,
    request: HttpRequest,
)
    requires
        call_ensures(create_client_request, (api_url, token, realm_name, client), request),
    ensures
        creates_client(
            request@,
            SessionView { api_url: api_url@, token: token@ },
            realm_name@,
            client@,
        ),
        request.body matches Some(body) && {
            &&& says(body@, "clientId"@, JsonView::Text(client.client_id@))
            &&& says(body@, "enabled"@, JsonView::Bool(client.enabled))
            &&& says(body@, "publicClient"@, JsonView::Bool(client.public_client))
            &&& says(
                body@,
                "directAccessGrantsEnabled"@,
                JsonView::Bool(client.direct_access_grants_enabled),
            )
            &&& says(
                body@,
                "serviceAccountsEnabled"@,
                JsonView::Bool(client.service_accounts_enabled),
            )
            &&& client.secret matches Some(secret) ==> says(
                body@,
                "secret"@,
                JsonView::Text(secret@),
            )
            &&& client.name matches Some(name) ==> says(body@, "name"@, JsonView::Text(name@))
            &&& client.protocol matches Some(protocol) ==> says(
                body@,
                "protocol"@,
                JsonView::Text(protocol@),
            )
            &&& client.client_type matches Some(client_type) ==> says(
                body@,
                "clientType"@,
                JsonView::Text(client_type@),
            )
        },
{
    client_requests_tell_the_client(
        SessionView { api_url: api_url@, token: token@ },
        realm_name@,
        client@,
    );
}

/// A request that is made to create a role, of the realm or of a client, carries its name, its
/// description and all its permissions in their order.
pub proof fn made_role_requests_carry_the_role(
    api_url: &str,
    token: &str,
    realm_name: &str,
    client_uuid: Option<&str>,
    role: &RoleImport,
    request: HttpRequest,
)
    requires
        call_ensures(
            create_role_request,
            (api_url, token, realm_name, client_uuid, role),
            request,
        ),
    ensures
        creates_role(
            request@,
            SessionView { api_url: api_url@, token: token@ },
            realm_name@,
            match client_uuid {
                Some(uuid) => Some(uuid@),
                None => None,
            },
            role@,
        ),
        request.body matches Some(body) && {
            &&& says(body@, "name"@, JsonView::Text(role.name@))
            &&& match role.description {
                Some(description) => says(
                    body@,
                    "description"@,
                    JsonView::Text(description@),
                ),
                None => says(body@, "description"@, JsonView::Null),
            }
            &&& says_texts(
                body@,
                "permissions"@,
                Seq::new(role.permissions@.len(), |i: int| role.permissions@[i]@),
            )
        },
{
    role_requests_tell_the_role(
        SessionView { api_url: api_url@, token: token@ },
        realm_name@,
        match client_uuid {
            Some(uuid) => Some(uuid@),
            None => None,
        },
        role@,
    );
    assert(role@.permissions =~= Seq::new(
        role.permissions@.len(),
        |i: int| role.permissions@[i]@,
    ));
}

/// A request that is made to allow a redirect URI, or to delete a realm, carries what it is made
/// from.
pub proof fn made_redirect_and_delete_requests_carry_their_parts(
    api_url: &str,
    token: &str,
    realm_name: &str,
    client_uuid: &str,
    uri: &str,
    redirect: HttpRequest,
    removal: HttpRequest,
)
    requires
        call_ensures(
            create_redirect_request,
            (api_url, token, realm_name, client_uuid, uri),
            redirect,
        ),
        call_ensures(delete_realm_request, (api_url, token, realm_name), removal),
    ensures
        ({
            let session = SessionView { api_url: api_url@, token: token@ };
            &&& allows_redirect(redirect@, session, realm_name@, client_uuid@, uri@)
            &&& deletes_realm(removal@, session, realm_name@)
        }),
{
    let session = SessionView { api_url: api_url@, token: token@ };
    redirect_requests_tell_the_uri(session, realm_name@, client_uuid@, uri@);
    delete_requests_name_the_realm(session, realm_name@);
}

// ---- Replies ----

/// A realm counts as created, a role too, exactly when the reply's code lies from 200 to 299; a
/// realm counts as deleted also where it is 404; a redirect URI counts as accepted from 200 to 299
/// and is an error only where its request could not be sent.
pub proof fn replies_count_by_their_code(
    realm_name: &str,
    role_name: &str,
    uri: &str,
    client_id: &str,
    delivery: &TextDelivery,
    realm: Result<(), OperatorError>,
    removal: Result<(), OperatorError>,
    role: Result<(), OperatorError>,
    redirect: Result<bool, OperatorError>,
)
    requires
        call_ensures(create_realm_reply, (realm_name, delivery), realm),
        call_ensures(delete_realm_reply, (realm_name, delivery), removal),
        call_ensures(create_role_reply, (realm_name, role_name, delivery), role),
        call_ensures(create_redirect_reply, (uri, client_id, delivery), redirect),
    ensures
        match delivery {
            TextDelivery::Failed { .. } => {
                &&& realm is Err && realm->Err_0 is RealmImportError
                &&& removal is Err && removal->Err_0 is RealmImportError
                &&& role is Err && role->Err_0 is RealmImportError
                &&& redirect is Err && redirect->Err_0 is RealmImportError
            },
            TextDelivery::Answered { status, .. } => {
                let code = status@;
                let success = 200 <= code && code <= 299;
                &&& realm is Ok <==> success
                &&& !success ==> realm is Err && realm->Err_0 is RealmImportError
                &&& removal is Ok <==> success || code == 404
                &&& !success && code != 404 ==> removal is Err && removal->Err_0 is RealmImportError
                &&& role is Ok <==> success
                &&& !success ==> role is Err && role->Err_0 is RealmImportError
                &&& redirect == Ok::<bool, OperatorError>(success)
            },
        },
{
    realms_are_created_by_success_only(realm_name@, delivery@);
    realms_are_deleted_by_success_or_absence(realm_name@, delivery@);
    roles_are_created_by_success_only(realm_name@, role_name@, delivery@);
}

/// A login yields the token, and a client its UUID, exactly where the reply has a code from 200 to
/// 299 and holds it.
pub proof fn json_replies_yield_their_text(
    realm_name: &str,
    client_id: &str,
    delivery: &JsonDelivery,
    token: Result<String, OperatorError>,
    uuid: Result<String, OperatorError>,
)
    requires
        call_ensures(authenticate_reply, (delivery,), token),
        call_ensures(create_client_reply, (realm_name, client_id, delivery), uuid),
    ensures
        token matches Ok(token) ==> token@.len() > 0 && holds_text(*delivery, "token"@, token@),
        token is Err ==> (forall|text: Seq<char>|
            text.len() > 0 ==> !#[trigger] holds_text(*delivery, "token"@, text)),
        uuid matches Ok(uuid) ==> holds_text(*delivery, "id"@, uuid@),
        uuid is Err ==> (forall|text: Seq<char>| !#[trigger] holds_text(*delivery, "id"@, text)),
        token is Err ==> token->Err_0 is AuthError,
        uuid is Err ==> uuid->Err_0 is RealmImportError,
{
    if let Ok(token) = token {
        logins_yield_the_token_of_the_reply(delivery@, token@);
    } else {
        assert forall|text: Seq<char>| text.len() > 0 implies !#[trigger] holds_text(
            *delivery,
            "token"@,
            text,
        ) by {
            logins_yield_the_token_of_the_reply(delivery@, text);
        }
    }
    if let Ok(uuid) = uuid {
        clients_get_the_uuid_of_the_reply(realm_name@, client_id@, delivery@, uuid@);
    } else {
        assert forall|text: Seq<char>| !#[trigger] holds_text(*delivery, "id"@, text) by {
            clients_get_the_uuid_of_the_reply(realm_name@, client_id@, delivery@, text);
        }
    }
}

/// Whether a request was answered with a code from 200 to 299 by a JSON object whose first member
/// of this name is this text.
pub open spec fn holds_text(delivery: JsonDelivery, name: Seq<char>, text: Seq<char>) -> bool {
    delivery matches JsonDelivery::Answered { status, body: Ok(bytes) } && 200 <= status@
        && status@ <= 299 && (parsed_reply(bytes@) matches Some(reply) && first_is_text(
        reply,
        name,
        text,
    ))
}

/// The text of a member of a reply is that of the first member of the name.
pub proof fn members_are_read_by_name(reply: &JsonReply, key: &str, text: Option<String>)
    requires
        call_ensures(JsonReply::text, (reply, key), text),
    ensures
        text matches Some(found) ==> first_is_text(reply@, key@, found@),
        text is None ==> (forall|any: Seq<char>| !#[trigger] first_is_text(reply@, key@, any)),
{
    if let Some(found) = text {
        texts_are_those_of_first_members(reply@, key@, found@);
    } else {
        assert forall|any: Seq<char>| !#[trigger] first_is_text(reply@, key@, any) by {
            texts_are_those_of_first_members(reply@, key@, any);
        }
    }
}

// ---- Credentials ----

/// Credentials are the user name, or `admin` where there is none, and the password, without which
/// there are none. The secret of a cluster is named after it.
pub proof fn credentials_are_made_of_their_texts(
    username: Option<String>,
    password: Option<String>,
    credentials: Result<(String, String), OperatorError>,
    cluster_name: &str,
    name: String,
)
    requires
        call_ensures(credentials_from, (username, password), credentials),
        call_ensures(admin_secret_name, (cluster_name,), name),
    ensures
        match password {
            Some(password) => credentials matches Ok((user, word)) && word@ == password@ && (
            match username {
                Some(username) => user@ == username@,
                None => user@ == "admin"@,
            }),
            None => credentials matches Err(OperatorError::InternalServerError { message })
                && message@ == "Admin password not found in secret"@,
        },
        name@.len() == "ferriskey-admin-"@.len() + cluster_name@.len(),
        "ferriskey-admin-"@.is_prefix_of(name@),
        name@.skip("ferriskey-admin-"@.len() as int) == cluster_name@,
{
    assert(name@.skip("ferriskey-admin-"@.len() as int) =~= cluster_name@);
}

// ---- Resources ----

/// A conversion keeps every field of the resource.
pub proof fn conversions_yield_what_is_asked_for(
    import: &FerrisKeyRealmImport,
    spec: RealmImportSpec,
)
    requires
        call_ensures(convert_to_domain_spec, (import,), spec),
    ensures
        spec.cluster_ref.name@ == import.spec.cluster_ref.name@,
        spec.realm.name@ == import.spec.realm.name@,
        same_optional(spec.realm.display_name, import.spec.realm.display_name),
        spec.realm.enabled == import.spec.realm.enabled,
        same_roles(spec.realm.realm_roles, import.spec.realm.realm_roles),
        spec.realm.clients@.len() == import.spec.realm.clients@.len(),
        forall|i: int|
            0 <= i < spec.realm.clients@.len() ==> same_client(
                #[trigger] spec.realm.clients@[i],
                import.spec.realm.clients@[i],
            ),
{
    conversion_keeps_every_field(spec, *import);
}

/// A report tells the result of an import: the status of a success as it is, and of a failure that
/// the resource is not ready, in phase `Error`, with the text of the error. A success is looked at
/// again after five minutes, and the error of a failure is handed on.
pub proof fn reports_yield_the_result(
    import: &FerrisKeyRealmImport,
    result: Result<RealmImportStatus, ImportFailure>,
    report: ImportReport,
)
    requires
        call_ensures(report_import, (import, result), report),
    ensures
        import.metadata.name matches Some(name) ==> report.name@ == name@,
        report.status.conditions is None,
        match result {
            Ok(status) => {
                &&& report.status.ready == status.ready
                &&& same_optional(report.status.message, status.message)
                &&& same_optional(report.status.phase, status.phase)
                &&& report.outcome == Ok::<Action, OperatorError>(Action::Requeue { seconds: 300 })
            },
            Err(failure) => {
                &&& !report.status.ready
                &&& report.status.message is Some && report.status.message->0@ == "Import error: "@
                    + failure.text@
                &&& report.status.phase is Some && report.status.phase->0@ == "Error"@
                &&& report.outcome is Err && report.outcome->Err_0@ == failure.error@
            },
        },
{
    assert(report.status@.conditions is None);
    assert(report.status@.message == report.status.message.deep_view());
    assert(report.status@.phase == report.status.phase.deep_view());
    if let Ok(status) = result {
        assert(status@.message == status.message.deep_view());
        assert(status@.phase == status.phase.deep_view());
    }
}

/// A patch writes the status that it is made from, and nothing else: whether it is ready, its
/// message, its phase and its conditions.
pub proof fn made_patches_write_the_status(status: &FerrisKeyRealmImportStatus, patch: Json)
    requires
        call_ensures(status_patch, (status,), patch),
    ensures
        writes_status(patch@, status@),
        status@.ready == status.ready,
{
    patches_tell_their_status(status@);
}

/// A patch that failed is an internal error that says why, and a patch that was made is none.
pub proof fn failed_patches_say_why(
    patched: Result<(), String>,
    result: Result<(), OperatorError>,
)
    requires
        call_ensures(update_import_status_reply, (patched,), result),
    ensures
        result is Ok <==> patched is Ok,
        patched matches Err(error) ==> (result matches Err(
            OperatorError::InternalServerError { message },
        ) && message@ == "Failed to patch realm import status: "@ + error@),
{
}

/// Whatever came of a cleanup, the resource is let go.
pub proof fn cleanups_let_go(
    result: Result<(), OperatorError>,
    outcome: Result<Action, OperatorError>,
)
    requires
        call_ensures(settle_cleanup, (result,), outcome),
    ensures
        outcome == Ok::<Action, OperatorError>(Action::AwaitChange),
{
}

/// What was done under the finalizer stands. A failure is an internal error that says what it was,
/// but for a resource that was gone when its finalizer was to be removed.
pub proof fn finalizers_settle(
    result: Result<Action, FinalizerFailure>,
    outcome: Result<Action, OperatorError>,
)
    requires
        call_ensures(settle_finalizer, (result,), outcome),
    ensures
        match result {
            Ok(action) => outcome == Ok::<Action, OperatorError>(action),
            Err(failure) => {
                let gone = failure.removal_code matches Some(code) && code == 404;
                &&& gone ==> outcome == Ok::<Action, OperatorError>(Action::AwaitChange)
                &&& !gone ==> (outcome matches Err(OperatorError::InternalServerError { message })
                    && message@ == "finalizer error: "@ + failure.debug@)
            },
        },
{
}

/// A reconciliation that failed is tried again after twenty seconds, whatever the error.
pub proof fn failures_are_tried_again(error: &OperatorError, action: Action)
    requires
        call_ensures(error_policy_import, (error,), action),
    ensures
        action == (Action::Requeue { seconds: 20 }),
{
}

} // verus!
