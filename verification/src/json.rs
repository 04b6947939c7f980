//! A model of JSON documents: the tree that the decoders read and that the
//! encoder builds, its mathematical view, and the parser that produces it.
use vstd::prelude::*;

verus! {

/// A JSON document. Object members keep the order in which they were given.
#[derive(Debug)]
pub enum Json {
    Null,
    Bool(bool),
    /// A number that is an integer in the range of `i64`.
    Int(i64),
    /// Any other number; its value is not kept.
    Number,
    Str(String),
    Array(Vec<Json>),
    Object(Vec<(String, Json)>),
}

/// The mathematical value of a [`Json`] document.
pub enum JsonView {
    Null,
    Bool(bool),
    Int(int),
    Number,
    Str(Seq<char>),
    Array(Seq<JsonView>),
    Object(Seq<(Seq<char>, JsonView)>),
}

/// The value of the first member named `key`, if there is one.
pub open spec fn first_value(fields: Seq<(Seq<char>, JsonView)>, key: Seq<char>) -> Option<
    JsonView,
>
    decreases fields.len(),
{
    if fields.len() == 0 {
        None
    } else if fields[0].0 == key {
        Some(fields[0].1)
    } else {
        first_value(fields.drop_first(), key)
    }
}

impl JsonView {
    /// The member `key` of an object; `None` for a missing member and for
    /// anything that is not an object.
    pub open spec fn member(self, key: Seq<char>) -> Option<JsonView> {
        match self {
            JsonView::Object(fields) => first_value(fields, key),
            _ => None,
        }
    }

    /// The member `key` where it is a string.
    pub open spec fn text_member(self, key: Seq<char>) -> Option<Seq<char>> {
        match self.member(key) {
            Some(JsonView::Str(s)) => Some(s),
            _ => None,
        }
    }

    /// Whether the member `key` is missing, `null`, or a string.
    pub open spec fn optional_text_member(self, key: Seq<char>) -> bool {
        match self.member(key) {
            None | Some(JsonView::Null) | Some(JsonView::Str(_)) => true,
            _ => false,
        }
    }

    /// Whether the member `key` is missing, `null`, or an integer.
    pub open spec fn optional_int_member(self, key: Seq<char>) -> bool {
        match self.member(key) {
            None | Some(JsonView::Null) | Some(JsonView::Int(_)) => true,
            _ => false,
        }
    }
}

/// The views of the members of an object, in order.
pub open spec fn fields_view(fields: Seq<(String, Json)>) -> Seq<(Seq<char>, JsonView)> {
    Seq::new(
        fields.len(),
        |i: int|
            if 0 <= i < fields.len() {
                (fields[i].0@, fields[i].1.view())
            } else {
                (Seq::empty(), JsonView::Null)
            },
    )
}

/// The views of the items of an array, in order.
pub open spec fn items_view(items: Seq<Json>) -> Seq<JsonView> {
    Seq::new(
        items.len(),
        |i: int|
            if 0 <= i < items.len() {
                items[i].view()
            } else {
                JsonView::Null
            },
    )
}

impl Json {
    pub open spec fn view(self) -> JsonView
        decreases self,
    {
        match self {
            Json::Null => JsonView::Null,
            Json::Bool(b) => JsonView::Bool(b),
            Json::Int(i) => JsonView::Int(i as int),
            Json::Number => JsonView::Number,
            Json::Str(s) => JsonView::Str(s@),
            Json::Array(items) => JsonView::Array(
                Seq::new(
                    items@.len(),
                    |i: int|
                        if 0 <= i < items@.len() {
                            items@[i].view()
                        } else {
                            JsonView::Null
                        },
                ),
            ),
            Json::Object(fields) => JsonView::Object(
                Seq::new(
                    fields@.len(),
                    |i: int|
                        if 0 <= i < fields@.len() {
                            (fields@[i].0@, fields@[i].1.view())
                        } else {
                            (Seq::empty(), JsonView::Null)
                        },
                ),
            ),
        }
    }

    /// An object's view lists the views of its members; an array's, of its items.
    pub proof fn lemma_view_unfold(self)
        ensures
            self matches Json::Object(fields) ==> self@ == JsonView::Object(fields_view(fields@)),
            self matches Json::Array(items) ==> self@ == JsonView::Array(items_view(items@)),
    {
        match self {
            Json::Object(fields) => {
                assert(self@->Object_0 =~= fields_view(fields@));
            },
            Json::Array(items) => {
                assert(self@->Array_0 =~= items_view(items@));
            },
            _ => {},
        }
    }

    /// Looks up the member `key` of an object. Where the name occurs more than
    /// once the first occurrence counts.
    pub fn get(&self, key: &str) -> (r: Option<&Json>)
        ensures
            match r {
                Some(v) => self@.member(key@) == Some(v@),
                None => self@.member(key@) is None,
            },
    {
        proof {
            self.lemma_view_unfold();
        }
        match self {
            Json::Object(fields) => {
                let wanted = key.to_owned();
                let ghost all = fields_view(fields@);
                let mut i: usize = 0;
                proof {
                    assert(all.skip(0) =~= all);
                }
                while i < fields.len()
                    invariant
                        0 <= i <= fields.len(),
                        self@ == JsonView::Object(all),
                        wanted@ == key@,
                        all == fields_view(fields@),
                        first_value(all, key@) == first_value(all.skip(i as int), key@),
                    decreases fields.len() - i,
                {
                    proof {
                        assert(all.skip(i as int).drop_first() =~= all.skip(i as int + 1));
                        assert(all.skip(i as int)[0] == all[i as int]);
                    }
                    if fields[i].0 == wanted {
                        return Some(&fields[i].1);
                    }
                    i += 1;
                }
                None
            },
            _ => None,
        }
    }
}

/// The document that the text holds, or `None` where the text is not JSON.
pub uninterp spec fn parsed_document(text: Seq<char>) -> Option<JsonView>;

/// What a `serde_json::Value` holds.
pub uninterp spec fn value_model(value: serde_json::Value) -> JsonView;

#[verifier::external_type_specification]
#[verifier::external_body]
pub struct ExValue(serde_json::Value);

/// `serde_json::from_str` at `serde_json::Value`, with the parser's error turned
/// into its message. Trusted: the outcome depends on the text alone, so it
/// succeeds exactly where the text has a parsed document, and the value then
/// holds that document. Nothing is claimed of the message.
#[verifier::external_body]
fn value_from_text(text: &str) -> (r: Result<serde_json::Value, String>)
    ensures
        r is Ok <==> parsed_document(text@) is Some,
        r matches Ok(v) ==> parsed_document(text@) == Some(value_model(v)),
{
    serde_json::from_str::<serde_json::Value>(text).map_err(|e| e.to_string())
}

/// Copies a `serde_json::Value` into a [`Json`], variant by variant, with
/// `Number::as_i64` deciding between `Int` and `Number`. Trusted: the copy's view
/// is what the value holds.
#[verifier::external_body]
fn json_from_value(value: &serde_json::Value) -> (j: Json)
    ensures
        j@ == value_model(*value),
{
    match value {
        serde_json::Value::Null => Json::Null,
        serde_json::Value::Bool(b) => Json::Bool(*b),
        serde_json::Value::Number(n) => n.as_i64().map_or(Json::Number, Json::Int),
        serde_json::Value::String(s) => Json::Str(s.clone()),
        serde_json::Value::Array(a) => Json::Array(a.iter().map(json_from_value).collect()),
        serde_json::Value::Object(o) => Json::Object(
            o.iter().map(|(k, v)| (k.clone(), json_from_value(v))).collect(),
        ),
    }
}

/// Parses a JSON text. The error carries the parser's message.
pub fn parse(text: &str) -> (r: Result<Json, String>)
    ensures
        match r {
            Ok(j) => parsed_document(text@) == Some(j@),
            Err(_) => parsed_document(text@) is None,
        },
{
    match value_from_text(text) {
        Ok(value) => Ok(json_from_value(&value)),
        Err(message) => Err(message),
    }
}

} // verus!
