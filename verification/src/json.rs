//! JSON documents as the feeds deliver them, read by the `serde_json`
//! crate and held as a value of this library.

use vstd::prelude::*;
use crate::text::same_text;

verus! {

/// A JSON value. An object keeps its members as a list; a number keeps its
/// text.
#[derive(Debug, PartialEq, Eq)]
pub enum Json {
    Null,
    Bool(bool),
    Number(String),
    Text(String),
    Array(Vec<Json>),
    Object(Vec<Member>),
}

/// One member of a JSON object.
#[derive(Debug, PartialEq, Eq)]
pub struct Member {
    pub name: String,
    pub value: Json,
}

/// A [`Json`] value with its texts and lists as sequences.
pub enum JsonView {
    Null,
    Bool(bool),
    Number(Seq<char>),
    Text(Seq<char>),
    Array(Seq<JsonView>),
    Object(Seq<MemberView>),
}

/// A [`Member`] with its name as a character sequence.
pub struct MemberView {
    pub name: Seq<char>,
    pub value: JsonView,
}

impl View for Json {
    type V = JsonView;

    open spec fn view(&self) -> JsonView
        decreases self,
    {
        match self {
            Json::Null => JsonView::Null,
            Json::Bool(b) => JsonView::Bool(*b),
            Json::Number(n) => JsonView::Number(n@),
            Json::Text(s) => JsonView::Text(s@),
            Json::Array(items) => JsonView::Array(
                Seq::new(
                    items@.len(),
                    |i: int|
                        if 0 <= i < items@.len() {
                            items@[i]@
                        } else {
                            JsonView::Null
                        },
                ),
            ),
            Json::Object(members) => JsonView::Object(
                Seq::new(
                    members@.len(),
                    |i: int|
                        if 0 <= i < members@.len() {
                            MemberView { name: members@[i].name@, value: members@[i].value@ }
                        } else {
                            MemberView { name: Seq::empty(), value: JsonView::Null }
                        },
                ),
            ),
        }
    }
}

#[verifier::external_type_specification]
#[verifier::external_body]
pub struct ExJsonError(serde_json::Error);

#[verifier::external_type_specification]
#[verifier::external_body]
pub struct ExJsonValue(serde_json::Value);

/// The value that `serde_json::from_str` reads from `text`; `None` where
/// the text is rejected. The members of an object come in the order in
/// which serde_json's map hands them out.
pub uninterp spec fn json_of_text(text: Seq<char>) -> Option<JsonView>;

/// Copies a `serde_json::Value` into a [`Json`], variant by variant, for
/// [`read_json`]; a number is written out with its `to_string`. Nothing is
/// claimed of it apart from what `read_json` states of the whole.
#[verifier::external_body]
fn json_of(value: serde_json::Value) -> Json {
    match value {
        serde_json::Value::Null => Json::Null,
        serde_json::Value::Bool(b) => Json::Bool(b),
        serde_json::Value::Number(n) => Json::Number(n.to_string()),
        serde_json::Value::String(s) => Json::Text(s),
        serde_json::Value::Array(items) => Json::Array(items.into_iter().map(json_of).collect()),
        serde_json::Value::Object(members) => Json::Object(
            members.into_iter().map(|(name, v)| Member { name, value: json_of(v) }).collect(),
        ),
    }
}

/// Reads `text` with `serde_json::from_str` into a `serde_json::Value` and
/// copies the value out.
///
/// Trusted: the error comes back exactly on the texts that serde_json
/// rejects, and the value read depends on the text alone.
#[verifier::external_body]
pub(crate) fn read_json(text: &str) -> (read: Result<Json, serde_json::Error>)
    ensures
        read is Ok <==> json_of_text(text@) is Some,
        read matches Ok(value) ==> json_of_text(text@) == Some(value@),
{
    serde_json::from_str::<serde_json::Value>(text).map(json_of)
}

/// The value of the first member called `name` in a list of members.
pub open spec fn lookup(members: Seq<MemberView>, name: Seq<char>) -> Option<JsonView>
    decreases members.len(),
{
    if members.len() == 0 {
        None
    } else if members[0].name == name {
        Some(members[0].value)
    } else {
        lookup(members.drop_first(), name)
    }
}

impl JsonView {
    /// The member called `name`, if this is an object that has one.
    pub open spec fn member_of(self, name: Seq<char>) -> Option<JsonView> {
        match self {
            JsonView::Object(members) => lookup(members, name),
            _ => None,
        }
    }

    /// The text held, if this is a string.
    pub open spec fn text_of(self) -> Option<Seq<char>> {
        match self {
            JsonView::Text(s) => Some(s),
            _ => None,
        }
    }

    /// The text of the member called `name`, if this is an object whose
    /// member of that name is a string.
    pub open spec fn member_text(self, name: Seq<char>) -> Option<Seq<char>> {
        match self.member_of(name) {
            Some(v) => v.text_of(),
            None => None,
        }
    }

    /// The items held, if this is an array.
    pub open spec fn items_of(self) -> Option<Seq<JsonView>> {
        match self {
            JsonView::Array(items) => Some(items),
            _ => None,
        }
    }
}

/// The view of an object lists the views of its members in order.
pub proof fn lemma_object_view(members: Vec<Member>)
    ensures
        Json::Object(members)@ is Object,
        Json::Object(members)@->Object_0.len() == members@.len(),
        forall|j: int|
            0 <= j < members@.len() ==> #[trigger] Json::Object(members)@->Object_0[j] == (MemberView {
                name: members@[j].name@,
                value: members@[j].value@,
            }),
{
    let views = Seq::new(
        members@.len(),
        |i: int|
            if 0 <= i < members@.len() {
                MemberView { name: members@[i].name@, value: members@[i].value@ }
            } else {
                MemberView { name: Seq::empty(), value: JsonView::Null }
            },
    );
    let v = Json::Object(members)@;
    assert(v is Object);
    assert(v->Object_0.len() == members@.len());
    assert(v->Object_0 =~= views);
}

/// The view of an array lists the views of its items in order.
pub proof fn lemma_array_view(items: Vec<Json>)
    ensures
        Json::Array(items)@ == JsonView::Array(json_views(items@)),
{
    let views = Seq::new(
        items@.len(),
        |i: int|
            if 0 <= i < items@.len() {
                items@[i]@
            } else {
                JsonView::Null
            },
    );
    let v = Json::Array(items)@;
    assert(v is Array);
    assert(v->Array_0.len() == items@.len());
    assert(v->Array_0 =~= views);
    assert(views =~= json_views(items@));
}

/// The views of a list of values.
pub open spec fn json_views(items: Seq<Json>) -> Seq<JsonView> {
    items.map_values(|v: Json| v@)
}

impl Json {
    /// Looks up the member called `name`.
    pub fn member(&self, name: &str) -> (found: Option<&Json>)
        ensures
            match found {
                Some(v) => self@.member_of(name@) == Some(v@),
                None => self@.member_of(name@) is None,
            },
    {
        match self {
            Json::Object(members) => {
                let ghost views = self@->Object_0;
                let mut i: usize = 0;
                proof {
                    lemma_object_view(*members);
                }
                assert(views.skip(0) =~= views);
                while i < members.len()
                    invariant
                        i <= members@.len(),
                        views.len() == members@.len(),
                        forall|j: int|
                            0 <= j < views.len() ==> #[trigger] views[j] == (MemberView {
                                name: members@[j].name@,
                                value: members@[j].value@,
                            }),
                        self@.member_of(name@) == lookup(views, name@),
                        lookup(views, name@) == lookup(views.skip(i as int), name@),
                    decreases members@.len() - i,
                {
                    assert(views.skip(i as int).drop_first() =~= views.skip(i + 1));
                    assert(views.skip(i as int)[0] == views[i as int]);
                    if same_text(members[i].name.as_str(), name) {
                        return Some(&members[i].value);
                    }
                    i += 1;
                }
                None
            },
            _ => None,
        }
    }

    /// The text held, if this is a string.
    pub fn text(&self) -> (found: Option<&String>)
        ensures
            match found {
                Some(s) => self@.text_of() == Some(s@),
                None => self@.text_of() is None,
            },
    {
        match self {
            Json::Text(s) => Some(s),
            _ => None,
        }
    }

    /// The text of the member called `name`.
    pub fn text_at(&self, name: &str) -> (found: Option<&String>)
        ensures
            match found {
                Some(s) => self@.member_text(name@) == Some(s@),
                None => self@.member_text(name@) is None,
            },
    {
        match self.member(name) {
            Some(v) => v.text(),
            None => None,
        }
    }

    /// The items held, if this is an array.
    pub fn items(&self) -> (found: Option<&Vec<Json>>)
        ensures
            match found {
                Some(v) => self@.items_of() == Some(json_views(v@)),
                None => self@.items_of() is None,
            },
    {
        match self {
            Json::Array(items) => {
                proof {
                    lemma_array_view(*items);
                }
                Some(items)
            },
            _ => None,
        }
    }
}

} // verus!
