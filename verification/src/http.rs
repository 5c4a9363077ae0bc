//! HTTP requests that the operator sends and the replies that it reads.
use crate::json::{Json, JsonView};
use crate::text::decimal;
use vstd::prelude::*;

verus! {

/// The methods that the operator uses.
#[derive(Debug, Clone, Copy, PartialEq, Eq, Structural)]
pub enum Method {
    Post,
    Delete,
}

/// A request to the FerrisKey API. A body is sent as JSON.
#[derive(Debug, PartialEq, Eq)]
pub struct HttpRequest {
    pub method: Method,
    pub url: String,
    /// The token of the `Authorization: Bearer` header
    pub bearer: Option<String>,
    pub body: Option<Json>,
}

/// What an [`HttpRequest`] says.
pub struct RequestView {
    pub method: Method,
    pub url: Seq<char>,
    pub bearer: Option<Seq<char>>,
    pub body: Option<JsonView>,
}

impl View for HttpRequest {
    type V = RequestView;

    open spec fn view(&self) -> RequestView {
        RequestView {
            method: self.method,
            url: self.url@,
            bearer: self.bearer.deep_view(),
            body: match self.body {
                Some(body) => Some(body@),
                None => None,
            },
        }
    }
}

/// The codes that an HTTP status can have.
pub open spec fn is_status_code(code: int) -> bool {
    100 <= code <= 999
}

/// The codes that say that a request was carried out.
pub open spec fn is_success_code(code: int) -> bool {
    200 <= code <= 299
}

/// The code that says that what was to be created is there already.
pub open spec fn is_conflict_code(code: int) -> bool {
    code == 409
}

/// The status of an HTTP reply: a code of three digits.
#[derive(Debug, Clone, Copy, PartialEq, Eq)]
pub struct HttpStatus {
    code: u16,
}

impl HttpStatus {
    #[verifier::type_invariant]
    spec fn has_three_digits(self) -> bool {
        is_status_code(self.code as int)
    }

    pub closed spec fn view(&self) -> int {
        self.code as int
    }

    /// The status with this code, or `None` where no status has it.
    pub fn from_u16(code: u16) -> (status: Option<HttpStatus>)
        ensures
            match status {
                Some(status) => is_status_code(code as int) && status@ == code,
                None => !is_status_code(code as int),
            },
    {
        if 100 <= code && code <= 999 {
            Some(HttpStatus { code })
        } else {
            None
        }
    }

    /// The code of this status.
    pub fn as_u16(&self) -> (code: u16)
        ensures
            code == self@,
            is_status_code(self@),
    {
        proof {
            use_type_invariant(self);
        }
        self.code
    }

    /// Whether the request was carried out.
    pub fn is_success(&self) -> (success: bool)
        ensures
            success == is_success_code(self@),
    {
        200 <= self.code && self.code <= 299
    }

    /// The code and the reason phrase, as in `404 Not Found`.
    pub fn describe(&self) -> (text: String)
        ensures
            text@ == status_text(self@ as u16),
            (decimal(self@ as nat) + " "@).is_prefix_of(text@),
    {
        proof {
            use_type_invariant(self);
        }
        status_display(self.code)
    }
}

/// The text by which `reqwest::StatusCode` displays the status with this code.
pub uninterp spec fn status_text(code: u16) -> Seq<char>;

/// Calls the `Display` of `reqwest::StatusCode`, which writes the code in decimal, a space, and
/// the reason phrase that is registered for the code, or a fixed phrase where none is. The
/// contract names the whole text and says how it begins.
#[verifier::external_body]
fn status_display(code: u16) -> (text: String)
    requires
        is_status_code(code as int),
    ensures
        text@ == status_text(code),
        (decimal(code as nat) + " "@).is_prefix_of(text@),
{
    format!("{}", reqwest::StatusCode::from_u16(code).unwrap())
}

/// What came of a request whose reply is to be read as JSON.
#[derive(Debug, PartialEq, Eq)]
pub enum JsonDelivery {
    /// The request could not be sent; `error` says why.
    Failed { error: String },
    /// A reply came. `body` holds its bytes, or why they could not be read.
    Answered { status: HttpStatus, body: Result<Vec<u8>, String> },
}

/// What came of a request of whose reply only the status matters. `text` is the body of a reply
/// that refused the request, for the error message; empty where it could not be read.
#[derive(Debug, PartialEq, Eq)]
pub enum TextDelivery {
    /// The request could not be sent; `error` says why.
    Failed { error: String },
    /// A reply came.
    Answered { status: HttpStatus, text: String },
}

/// What a [`JsonDelivery`] says.
pub enum JsonDeliveryView {
    Failed(Seq<char>),
    Answered(int, Result<Seq<u8>, Seq<char>>),
}

/// What a [`TextDelivery`] says.
pub enum TextDeliveryView {
    Failed(Seq<char>),
    Answered(int, Seq<char>),
}

impl View for JsonDelivery {
    type V = JsonDeliveryView;

    open spec fn view(&self) -> JsonDeliveryView {
        match self {
            JsonDelivery::Failed { error } => JsonDeliveryView::Failed(error@),
            JsonDelivery::Answered { status, body } => JsonDeliveryView::Answered(
                status@,
                match body {
                    Ok(bytes) => Ok(bytes@),
                    Err(error) => Err(error@),
                },
            ),
        }
    }
}

impl View for TextDelivery {
    type V = TextDeliveryView;

    open spec fn view(&self) -> TextDeliveryView {
        match self {
            TextDelivery::Failed { error } => TextDeliveryView::Failed(error@),
            TextDelivery::Answered { status, text } => TextDeliveryView::Answered(status@, text@),
        }
    }
}

impl JsonDeliveryView {
    /// Whether the reply says that what was to be created is there already.
    pub open spec fn is_conflict(self) -> bool {
        self matches JsonDeliveryView::Answered(code, _) && is_conflict_code(code)
    }
}

impl TextDeliveryView {
    /// Whether the reply says that what was to be created is there already.
    pub open spec fn is_conflict(self) -> bool {
        self matches TextDeliveryView::Answered(code, _) && is_conflict_code(code)
    }
}

impl JsonDelivery {
    /// Whether the reply says that what was to be created is there already.
    pub fn is_conflict(&self) -> (conflict: bool)
        ensures
            conflict == self@.is_conflict(),
    {
        match self {
            JsonDelivery::Failed { .. } => false,
            JsonDelivery::Answered { status, .. } => status.as_u16() == 409,
        }
    }
}

impl TextDelivery {
    /// Whether the reply says that what was to be created is there already.
    pub fn is_conflict(&self) -> (conflict: bool)
        ensures
            conflict == self@.is_conflict(),
    {
        match self {
            TextDelivery::Failed { .. } => false,
            TextDelivery::Answered { status, .. } => status.as_u16() == 409,
        }
    }
}

/// What the operator reads of a JSON reply: each member of the object, with its text where the
/// member is a string, and the reply's debugging text. A reply that is no object has no members.
#[derive(Debug, PartialEq, Eq)]
pub struct JsonReply {
    pub members: Vec<(String, Option<String>)>,
    pub debug: String,
}

/// What a [`JsonReply`] says.
pub struct ReplyView {
    pub members: Seq<(Seq<char>, Option<Seq<char>>)>,
    pub debug: Seq<char>,
}

impl View for JsonReply {
    type V = ReplyView;

    open spec fn view(&self) -> ReplyView {
        ReplyView { members: self.members.deep_view(), debug: self.debug@ }
    }
}

/// The first value that stands under `key`.
pub open spec fn lookup<V>(entries: Seq<(Seq<char>, V)>, key: Seq<char>) -> Option<V>
    decreases entries.len(),
{
    if entries.len() == 0 {
        None
    } else if entries[0].0 == key {
        Some(entries[0].1)
    } else {
        lookup(entries.drop_first(), key)
    }
}

/// The text of the member `key` of a reply, where there is such a member and it is a string.
pub open spec fn reply_text(reply: ReplyView, key: Seq<char>) -> Option<Seq<char>> {
    match lookup(reply.members, key) {
        Some(text) => text,
        None => None,
    }
}

impl JsonReply {
    /// The text of the member `key`, where there is such a member and it is a string.
    pub fn text(&self, key: &str) -> (text: Option<String>)
        ensures
            text.deep_view() == reply_text(self@, key@),
    {
        let name: String = key.to_string();
        let ghost all = self.members.deep_view();
        let mut i: usize = 0;
        assert(all.skip(0) =~= all);
        while i < self.members.len()
            invariant
                all == self.members.deep_view(),
                i <= self.members.len(),
                name@ == key@,
                lookup(all, key@) == lookup(all.skip(i as int), key@),
            decreases self.members.len() - i,
        {
            assert(all.skip(i as int)[0] == all[i as int]);
            assert(all.skip(i as int).drop_first() =~= all.skip(i + 1));
            if self.members[i].0 == name {
                return match &self.members[i].1 {
                    Some(text) => Some(text.clone()),
                    None => None,
                };
            }
            i = i + 1;
        }
        None
    }
}

/// What `serde_json` reads from these bytes, or `None` where they are not one JSON document.
pub uninterp spec fn parsed_reply(body: Seq<u8>) -> Option<ReplyView>;

/// Calls `serde_json::from_slice` for a `serde_json::Value` and keeps of the value what
/// [`JsonReply`] holds: for an object its members in the order of the map, each with the text of
/// `Value::as_str`, and the text of the value's `Debug`. The contract names the whole.
#[verifier::external_body]
pub(crate) fn read_reply(body: &[u8]) -> (reply: Option<JsonReply>)
    ensures
        match reply {
            Some(reply) => parsed_reply(body@) == Some(reply@),
            None => parsed_reply(body@) is None,
        },
{
    let value = serde_json::from_slice::<serde_json::Value>(body).ok()?;
    let debug = format!("{:?}", value);
    let members = match value {
        serde_json::Value::Object(map) => map
            .into_iter()
            .map(|(name, member)| (name, member.as_str().map(str::to_string)))
            .collect(),
        _ => Vec::new(),
    };
    Some(JsonReply { members, debug })
}

} // verus!
