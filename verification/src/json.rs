//! JSON documents that the operator writes.
use vstd::prelude::*;

verus! {

/// A JSON document to be sent. An object's members stand in the order of the vector.
#[derive(Debug, PartialEq, Eq)]
pub enum Json {
    Null,
    Bool(bool),
    Text(String),
    Array(Vec<Json>),
    Object(Vec<(String, Json)>),
}

/// What a [`Json`] document says.
pub enum JsonView {
    Null,
    Bool(bool),
    Text(Seq<char>),
    Array(Seq<JsonView>),
    Object(Seq<(Seq<char>, JsonView)>),
}

impl Json {
    pub open spec fn model(&self) -> JsonView
        decreases self,
    {
        match self {
            Json::Null => JsonView::Null,
            Json::Bool(b) => JsonView::Bool(*b),
            Json::Text(s) => JsonView::Text(s@),
            Json::Array(items) => JsonView::Array(
                Seq::new(
                    items@.len(),
                    |i: int|
                        if 0 <= i < items@.len() {
                            items@[i].model()
                        } else {
                            JsonView::Null
                        },
                ),
            ),
            Json::Object(members) => JsonView::Object(
                Seq::new(
                    members@.len(),
                    |i: int|
                        if 0 <= i < members@.len() {
                            (members@[i].0@, members@[i].1.model())
                        } else {
                            (Seq::empty(), JsonView::Null)
                        },
                ),
            ),
        }
    }
}

impl View for Json {
    type V = JsonView;

    open spec fn view(&self) -> JsonView {
        self.model()
    }
}

/// A text, or `null` where there is none.
pub open spec fn optional_text_view(text: Option<Seq<char>>) -> JsonView {
    match text {
        Some(t) => JsonView::Text(t),
        None => JsonView::Null,
    }
}

/// An array of texts.
pub open spec fn texts_view(texts: Seq<Seq<char>>) -> JsonView {
    JsonView::Array(texts.map_values(|t: Seq<char>| JsonView::Text(t)))
}

/// A JSON string.
pub fn text(s: &str) -> (json: Json)
    ensures
        json@ == JsonView::Text(s@),
{
    Json::Text(s.to_string())
}

/// A JSON string, or `null` where there is none.
pub fn optional_text(s: &Option<String>) -> (json: Json)
    ensures
        json@ == optional_text_view(s.deep_view()),
{
    match s {
        Some(s) => Json::Text(s.clone()),
        None => Json::Null,
    }
}

/// A JSON array of strings.
pub fn texts(list: &Vec<String>) -> (json: Json)
    ensures
        json@ == texts_view(list.deep_view()),
{
    let mut items: Vec<Json> = Vec::new();
    let mut i: usize = 0;
    while i < list.len()
        invariant
            i <= list.len(),
            items.len() == i,
            forall|k: int| 0 <= k < i ==> (#[trigger] items@[k])@ == JsonView::Text(list@[k]@),
        decreases list.len() - i,
    {
        items.push(Json::Text(list[i].clone()));
        i = i + 1;
    }
    let json = Json::Array(items);
    proof {
        let want = list.deep_view().map_values(|t: Seq<char>| JsonView::Text(t));
        assert(json@->Array_0 =~= want);
    }
    json
}

/// A JSON object with these members.
pub fn object(members: Vec<(String, Json)>) -> (json: Json)
    ensures
        json@ == JsonView::Object(
            members@.map_values(|m: (String, Json)| (m.0@, m.1@)),
        ),
{
    let json = Json::Object(members);
    assert(json@->Object_0 =~= members@.map_values(|m: (String, Json)| (m.0@, m.1@)));
    json
}

} // verus!
