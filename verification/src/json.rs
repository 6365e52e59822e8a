//! JSON documents as the backends and the search provider send them.
//!
//! Parsing is left to `serde_json`. What it reads is turned into [`Json`], a
//! tree of plain values, and everything that looks into a document is
//! verified code over that tree.

use vstd::prelude::*;

verus! {

/// A JSON document.
#[derive(Debug, PartialEq, Eq)]
pub enum Json {
    Null,
    Bool(bool),
    /// A number, kept as the decimal text that stands for it.
    Number(String),
    Text(String),
    Array(Vec<Json>),
    /// The members of an object, each with its name.
    Object(Vec<(String, Json)>),
}

/// A JSON document as a mathematical value.
pub enum JsonView {
    Null,
    Bool(bool),
    Number(Seq<char>),
    Text(Seq<char>),
    Array(Seq<JsonView>),
    Object(Seq<(Seq<char>, JsonView)>),
}

impl Json {
    /// The document as a mathematical value: every string by its characters,
    /// every list by its sequence.
    pub open spec fn tree(&self) -> JsonView
        decreases self,
    {
        match self {
            Json::Null => JsonView::Null,
            Json::Bool(flag) => JsonView::Bool(*flag),
            Json::Number(digits) => JsonView::Number(digits@),
            Json::Text(text) => JsonView::Text(text@),
            Json::Array(items) => JsonView::Array(
                Seq::new(
                    items@.len(),
                    |i: int|
                        if 0 <= i < items@.len() {
                            items@[i].tree()
                        } else {
                            JsonView::Null
                        },
                ),
            ),
            Json::Object(members) => JsonView::Object(
                Seq::new(
                    members@.len(),
                    |i: int|
                        if 0 <= i < members@.len() {
                            (members@[i].0@, members@[i].1.tree())
                        } else {
                            (Seq::empty(), JsonView::Null)
                        },
                ),
            ),
        }
    }
}

impl View for Json {
    type V = JsonView;

    open spec fn view(&self) -> JsonView {
        self.tree()
    }
}

/// The value of the first member called `name`, if there is one.
pub open spec fn first_named(members: Seq<(Seq<char>, JsonView)>, name: Seq<char>) -> Option<
    JsonView,
>
    decreases members.len(),
{
    if members.len() == 0 {
        None
    } else if members[0].0 == name {
        Some(members[0].1)
    } else {
        first_named(members.drop_first(), name)
    }
}

impl JsonView {
    /// The member `name` of an object. Anything but an object has no members.
    pub open spec fn member(self, name: Seq<char>) -> Option<JsonView> {
        match self {
            JsonView::Object(members) => first_named(members, name),
            _ => None,
        }
    }

    /// The element at `index` of an array. Anything but an array has none.
    pub open spec fn element(self, index: int) -> Option<JsonView> {
        match self {
            JsonView::Array(items) => if 0 <= index < items.len() {
                Some(items[index])
            } else {
                None
            },
            _ => None,
        }
    }

    /// The characters of a string value. Anything but a string has none.
    pub open spec fn text(self) -> Option<Seq<char>> {
        match self {
            JsonView::Text(text) => Some(text),
            _ => None,
        }
    }
}

impl Json {
    /// Looks up a member of an object by name: the first one called `name`.
    pub fn get(&self, name: &str) -> (found: Option<&Json>)
        ensures
            found matches Some(value) ==> self@.member(name@) == Some(value@),
            found is None ==> self@.member(name@) is None,
    {
        match self {
            Json::Object(members) => {
                let ghost named = self@->Object_0;
                let wanted = name.to_owned();
                let mut i: usize = 0;
                assert(named.skip(0) =~= named);
                while i < members.len()
                    invariant
                        i <= members.len(),
                        wanted@ == name@,
                        self@ == JsonView::Object(named),
                        named.len() == members@.len(),
                        forall|j: int|
                            0 <= j < named.len() ==> #[trigger] named[j] == (
                                members@[j].0@,
                                members@[j].1@,
                            ),
                        first_named(named, name@) == first_named(named.skip(i as int), name@),
                    decreases members.len() - i,
                {
                    assert(named.skip(i as int).drop_first() =~= named.skip(i + 1));
                    assert(named.skip(i as int)[0] == named[i as int]);
                    if members[i].0 == wanted {
                        return Some(&members[i].1);
                    }
                    i += 1;
                }
                None
            },
            _ => None,
        }
    }

    /// Looks up an element of an array by position.
    pub fn at(&self, index: usize) -> (found: Option<&Json>)
        ensures
            found matches Some(value) ==> self@.element(index as int) == Some(value@),
            found is None ==> self@.element(index as int) is None,
    {
        match self {
            Json::Array(items) => if index < items.len() {
                Some(&items[index])
            } else {
                None
            },
            _ => None,
        }
    }

    /// The characters of a string value.
    pub fn as_text(&self) -> (found: Option<&str>)
        ensures
            found matches Some(text) ==> self@.text() == Some(text@),
            found is None ==> self@.text() is None,
    {
        match self {
            Json::Text(text) => Some(text.as_str()),
            _ => None,
        }
    }
}

/// The members of an object as mathematical values, in the same order.
pub open spec fn member_views(members: Seq<(String, Json)>) -> Seq<(Seq<char>, JsonView)> {
    Seq::new(members.len(), |i: int| (members[i].0@, members[i].1@))
}

/// The elements of an array as mathematical values, in the same order.
pub open spec fn item_views(items: Seq<Json>) -> Seq<JsonView> {
    Seq::new(items.len(), |i: int| items[i]@)
}

/// An object is viewed member by member.
pub proof fn lemma_object_view(members: Vec<(String, Json)>)
    ensures
        Json::Object(members)@ == JsonView::Object(member_views(members@)),
{
    assert(Json::Object(members)@->Object_0 =~= member_views(members@));
}

/// An array is viewed element by element.
pub proof fn lemma_array_view(items: Vec<Json>)
    ensures
        Json::Array(items)@ == JsonView::Array(item_views(items@)),
{
    assert(Json::Array(items)@->Array_0 =~= item_views(items@));
}

#[verifier::external_type_specification]
#[verifier::external_body]
pub struct ExValue(serde_json::Value);

#[verifier::external_type_specification]
#[verifier::external_body]
pub struct ExError(serde_json::Error);

/// The document that a `serde_json::Value` holds: each variant as the
/// variant of [`JsonView`] of the same kind, a number as the text that its
/// `to_string` gives, the members of an object in the order in which its map
/// hands them out.
pub uninterp spec fn tree_of(value: serde_json::Value) -> JsonView;

/// The document that `bytes` spell, or `None` where `serde_json` does not
/// accept them as one JSON value.
pub uninterp spec fn document(bytes: Seq<u8>) -> Option<JsonView>;

/// Calls `serde_json::from_slice` for a `serde_json::Value`. Trusted: whether
/// the bytes are accepted, and the value read, depend on the bytes alone.
#[verifier::external_body]
fn read_value(bytes: &[u8]) -> (read: Result<serde_json::Value, serde_json::Error>)
    ensures
        read matches Ok(value) ==> document(bytes@) == Some(tree_of(value)),
        read is Err ==> document(bytes@) is None,
{
    serde_json::from_slice::<serde_json::Value>(bytes)
}

/// Takes a `serde_json::Value` apart, variant by variant, into a [`Json`].
/// A number is written out with `serde_json::Number`'s `to_string`. Trusted:
/// the tree is the one that [`tree_of`] names.
#[verifier::external_body]
fn lift(value: serde_json::Value) -> (tree: Json)
    ensures
        tree@ == tree_of(value),
{
    match value {
        serde_json::Value::Null => Json::Null,
        serde_json::Value::Bool(flag) => Json::Bool(flag),
        serde_json::Value::Number(number) => Json::Number(number.to_string()),
        serde_json::Value::String(text) => Json::Text(text),
        serde_json::Value::Array(items) => Json::Array(items.into_iter().map(lift).collect()),
        serde_json::Value::Object(members) => Json::Object(
            members.into_iter().map(|(name, item)| (name, lift(item))).collect(),
        ),
    }
}

/// Parses one JSON document.
pub fn parse(bytes: &[u8]) -> (parsed: Option<Json>)
    ensures
        parsed matches Some(tree) ==> document(bytes@) == Some(tree@),
        parsed is None ==> document(bytes@) is None,
{
    match read_value(bytes) {
        Ok(value) => Some(lift(value)),
        Err(_) => None,
    }
}

} // verus!
