//! The administrator's credentials of a cluster, as a Kubernetes secret holds them.
use crate::error::{ErrorView, OperatorError};
use crate::http::lookup;
use base64::Engine;
use vstd::prelude::*;
use vstd::utf8::{decode_utf8, valid_utf8};

verus! {

/// A secret's entries, each a key and the bytes under it, where the secret has data.
#[derive(Debug, Clone, PartialEq, Eq)]
pub struct SecretData {
    pub data: Option<Vec<(String, Vec<u8>)>>,
}

/// What a [`SecretData`] holds.
pub type SecretView = Option<Seq<(Seq<char>, Seq<u8>)>>;

impl View for SecretData {
    type V = SecretView;

    open spec fn view(&self) -> SecretView {
        self.data.deep_view()
    }
}

/// What base64 with the standard alphabet and padding decodes these bytes to, or `None` where
/// they are no such encoding.
pub uninterp spec fn base64_decoded(encoded: Seq<u8>) -> Option<Seq<u8>>;

/// Calls `decode` of the `STANDARD` engine of the `base64` crate. The contract names its result.
#[verifier::external_body]
fn decode_base64(encoded: &[u8]) -> (decoded: Option<Vec<u8>>)
    ensures
        match decoded {
            Some(bytes) => base64_decoded(encoded@) == Some(bytes@),
            None => base64_decoded(encoded@) is None,
        },
{
    base64::engine::general_purpose::STANDARD.decode(encoded).ok()
}

/// Calls `String::from_utf8`: bytes that are UTF-8 become the text that they encode, and no other
/// bytes become a text.
#[verifier::external_body]
fn decode_text(bytes: Vec<u8>) -> (text: Option<String>)
    ensures
        match text {
            Some(text) => valid_utf8(bytes@) && text@ == decode_utf8(bytes@),
            None => !valid_utf8(bytes@),
        },
{
    String::from_utf8(bytes).ok()
}

/// The text that an entry of a secret holds: base64 of UTF-8.
pub open spec fn secret_text(entry: Seq<u8>) -> Option<Seq<char>> {
    match base64_decoded(entry) {
        Some(bytes) if valid_utf8(bytes) => Some(decode_utf8(bytes)),
        _ => None,
    }
}

/// The text under `key`, where the secret has such an entry and it holds a text.
pub open spec fn secret_entry(secret: SecretView, key: Seq<char>) -> Option<Seq<char>> {
    match secret {
        Some(entries) => match lookup(entries, key) {
            Some(entry) => secret_text(entry),
            None => None,
        },
        None => None,
    }
}

/// The credentials that these texts make. Without a user name it is the administrator's usual
/// one; without a password there are no credentials.
pub open spec fn credentials_meaning(
    username: Option<Seq<char>>,
    password: Option<Seq<char>>,
) -> Result<(Seq<char>, Seq<char>), ErrorView> {
    match password {
        Some(password) => Ok(
            (
                match username {
                    Some(username) => username,
                    None => "admin"@,
                },
                password,
            ),
        ),
        None => Err(ErrorView::InternalServerError("Admin password not found in secret"@)),
    }
}

/// The user name and the password that a secret holds.
pub open spec fn credentials_result(secret: SecretView) -> Result<
    (Seq<char>, Seq<char>),
    ErrorView,
> {
    credentials_meaning(secret_entry(secret, "username"@), secret_entry(secret, "password"@))
}

/// What a result that yields credentials says.
pub open spec fn pair_result(result: Result<(String, String), OperatorError>) -> Result<
    (Seq<char>, Seq<char>),
    ErrorView,
> {
    match result {
        Ok((username, password)) => Ok((username@, password@)),
        Err(e) => Err(e@),
    }
}

impl SecretData {
    /// The text under `key`, where the secret has such an entry and it holds base64 of UTF-8.
    pub fn text(&self, key: &str) -> (text: Option<String>)
        ensures
            text.deep_view() == secret_entry(self@, key@),
    {
        match &self.data {
            None => None,
            Some(entries) => {
                let name: String = key.to_string();
                let ghost all = entries.deep_view();
                let mut i: usize = 0;
                assert(all.skip(0) =~= all);
                while i < entries.len()
                    invariant
                        self@ == Some(all),
                        all == entries.deep_view(),
                        i <= entries.len(),
                        name@ == key@,
                        lookup(all, key@) == lookup(all.skip(i as int), key@),
                    decreases entries.len() - i,
                {
                    assert(all.skip(i as int)[0] == all[i as int]);
                    assert(all.skip(i as int).drop_first() =~= all.skip(i + 1));
                    if entries[i].0 == name {
                        assert(all[i as int].1 =~= entries@[i as int].1@);
                        return match decode_base64(entries[i].1.as_slice()) {
                            Some(bytes) => decode_text(bytes),
                            None => None,
                        };
                    }
                    i = i + 1;
                }
                None
            },
        }
    }
}

/// The credentials that these texts make. Without a user name it is the administrator's usual
/// one; without a password there are no credentials.
pub fn credentials_from(username: Option<String>, password: Option<String>) -> (credentials: Result<
    (String, String),
    OperatorError,
>)
    ensures
        pair_result(credentials) == credentials_meaning(username.deep_view(), password.deep_view()),
{
    let username: String = match username {
        Some(username) => username,
        None => "admin".to_string(),
    };
    match password {
        Some(password) => Ok((username, password)),
        None => Err(
            OperatorError::InternalServerError {
                message: "Admin password not found in secret".to_string(),
            },
        ),
    }
}

/// The user name and the password that a secret holds.
pub fn admin_credentials(secret: &SecretData) -> (credentials: Result<
    (String, String),
    OperatorError,
>)
    ensures
        pair_result(credentials) == credentials_result(secret@),
{
    credentials_from(secret.text("username"), secret.text("password"))
}

} // verus!
