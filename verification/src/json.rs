//! JSON documents as the gateway reads them.

use vstd::prelude::*;
use vstd::string::StringExecFns;

verus! {

/// A JSON value as a mathematical tree.
pub ghost enum JsonValue {
    Null,
    Bool(bool),
    Number(Seq<char>),
    Text(Seq<char>),
    Array(Seq<JsonValue>),
    Object(Seq<(Seq<char>, JsonValue)>),
}

/// One member of a JSON object.
#[derive(Debug, PartialEq, Eq)]
pub struct Member {
    pub key: String,
    pub value: Json,
}

/// A JSON value. A number is held as its decimal text.
#[derive(Debug, PartialEq, Eq)]
pub enum Json {
    Null,
    Bool(bool),
    Number(String),
    Text(String),
    Array(Vec<Json>),
    Object(Vec<Member>),
}

impl Json {
    /// The tree that this value denotes.
    pub open spec fn tree(&self) -> JsonValue
        decreases self,
    {
        match self {
            Json::Null => JsonValue::Null,
            Json::Bool(b) => JsonValue::Bool(*b),
            Json::Number(n) => JsonValue::Number(n@),
            Json::Text(s) => JsonValue::Text(s@),
            Json::Array(items) => JsonValue::Array(
                Seq::new(
                    items@.len(),
                    |i: int|
                        if 0 <= i < items@.len() {
                            items@[i].tree()
                        } else {
                            JsonValue::Null
                        },
                ),
            ),
            Json::Object(members) => JsonValue::Object(
                Seq::new(
                    members@.len(),
                    |i: int|
                        if 0 <= i < members@.len() {
                            (members@[i].key@, members@[i].value.tree())
                        } else {
                            (Seq::empty(), JsonValue::Null)
                        },
                ),
            ),
        }
    }
}

impl View for Json {
    type V = JsonValue;

    open spec fn view(&self) -> JsonValue {
        self.tree()
    }
}

/// The value of the first member of `members` that is named `key`.
pub open spec fn find_member(members: Seq<(Seq<char>, JsonValue)>, key: Seq<char>) -> Option<
    JsonValue,
>
    decreases members.len(),
{
    if members.len() == 0 {
        None
    } else if members[0].0 == key {
        Some(members[0].1)
    } else {
        find_member(members.drop_first(), key)
    }
}

impl JsonValue {
    /// The member named `key`, where this value is an object that has one.
    pub open spec fn member(self, key: Seq<char>) -> Option<JsonValue> {
        match self {
            JsonValue::Object(members) => find_member(members, key),
            _ => None,
        }
    }
}

/// The members of an object, each as its name and the tree of its value.
pub open spec fn members_view(members: Seq<Member>) -> Seq<(Seq<char>, JsonValue)> {
    Seq::new(members.len(), |i: int| (members[i].key@, members[i].value@))
}

/// The trees of the items of an array, in their order.
pub open spec fn items_view(items: Seq<Json>) -> Seq<JsonValue> {
    Seq::new(items.len(), |i: int| items[i]@)
}

/// The tree of an array is the trees of its items, in their order.
pub proof fn lemma_array_view(items: Vec<Json>)
    ensures
        (Json::Array(items))@ == JsonValue::Array(items_view(items@)),
{
    let got = (Json::Array(items))@->Array_0;
    assert(got =~= items_view(items@));
}

/// The tree of an object is the trees of its members, in their order.
pub proof fn lemma_object_view(members: Vec<Member>)
    ensures
        (Json::Object(members))@ == JsonValue::Object(members_view(members@)),
{
    let got = (Json::Object(members))@->Object_0;
    assert(got =~= members_view(members@));
}

/// Looking a name up from position `from` on: the index of the first
/// member of that name, if there is one.
proof fn lemma_find_member_skip(all: Seq<(Seq<char>, JsonValue)>, key: Seq<char>, from: int)
    requires
        0 <= from < all.len(),
    ensures
        find_member(all.skip(from), key) == if all[from].0 == key {
            Some(all[from].1)
        } else {
            find_member(all.skip(from + 1), key)
        },
{
    assert(all.skip(from).drop_first() =~= all.skip(from + 1));
}

impl Json {
    /// Whether this value is `null`.
    pub fn is_null(&self) -> (null: bool)
        ensures
            null == (self@ is Null),
    {
        match self {
            Json::Null => true,
            _ => false,
        }
    }

    /// The text of a JSON string, `None` for any other value.
    pub fn as_text(&self) -> (text: Option<&String>)
        ensures
            match text {
                Some(s) => self@ == JsonValue::Text(s@),
                None => !(self@ is Text),
            },
    {
        match self {
            Json::Text(s) => Some(s),
            _ => None,
        }
    }

    /// The position of the first member named `key`.
    fn position(members: &Vec<Member>, key: &str) -> (at: Option<usize>)
        ensures
            match at {
                Some(i) => i < members.len() && find_member(members_view(members@), key@) == Some(
                    members[i as int].value@,
                ),
                None => find_member(members_view(members@), key@) is None,
            },
    {
        let wanted = String::from_str(key);
        let ghost all = members_view(members@);
        let mut i: usize = 0;
        proof {
            assert(all.skip(0) =~= all);
        }
        while i < members.len()
            invariant
                i <= members.len(),
                wanted@ == key@,
                all == members_view(members@),
                find_member(all, key@) == find_member(all.skip(i as int), key@),
            decreases members.len() - i,
        {
            proof {
                lemma_find_member_skip(all, key@, i as int);
            }
            if members[i].key == wanted {
                return Some(i);
            }
            i += 1;
        }
        None
    }

    /// The member named `key`, where this value is an object that has one;
    /// the first of them where several have that name.
    pub fn get(&self, key: &str) -> (found: Option<&Json>)
        ensures
            match found {
                Some(json) => self@.member(key@) == Some(json@),
                None => self@.member(key@) is None,
            },
    {
        match self {
            Json::Object(members) => {
                proof {
                    lemma_object_view(*members);
                }
                match Json::position(members, key) {
                    Some(i) => Some(&members[i].value),
                    None => None,
                }
            },
            _ => None,
        }
    }

    /// Takes the value apart and hands out the member named `key`.
    pub fn into_member(self, key: &str) -> (found: Option<Json>)
        ensures
            document_view(found) == self@.member(key@),
    {
        match self {
            Json::Object(members) => {
                proof {
                    lemma_object_view(members);
                }
                let mut members = members;
                match Json::position(&members, key) {
                    Some(i) => Some(members.remove(i).value),
                    None => None,
                }
            },
            _ => None,
        }
    }
}

impl Clone for Json {
    /// A copy of the whole tree.
    fn clone(&self) -> (copy: Json)
        ensures
            copy@ == self@,
        decreases self,
    {
        match self {
            Json::Null => Json::Null,
            Json::Bool(b) => Json::Bool(*b),
            Json::Number(n) => Json::Number(n.clone()),
            Json::Text(s) => Json::Text(s.clone()),
            Json::Array(items) => {
                let mut copies: Vec<Json> = Vec::new();
                let mut i: usize = 0;
                while i < items.len()
                    invariant
                        i <= items.len(),
                        *self == Json::Array(*items),
                        copies@.len() == i,
                        forall|k: int| 0 <= k < i ==> copies@[k]@ == items@[k]@,
                    decreases items.len() - i,
                {
                    proof {
                        // The item is a part of the array, and so smaller.
                        assert(self->Array_0 == *items);
                    }
                    copies.push(items[i].clone());
                    i += 1;
                }
                proof {
                    lemma_array_view(*items);
                    lemma_array_view(copies);
                    assert(items_view(copies@) =~= items_view(items@));
                }
                Json::Array(copies)
            },
            Json::Object(members) => {
                let mut copies: Vec<Member> = Vec::new();
                let mut i: usize = 0;
                while i < members.len()
                    invariant
                        i <= members.len(),
                        *self == Json::Object(*members),
                        copies@.len() == i,
                        forall|k: int|
                            0 <= k < i ==> copies@[k].key@ == members@[k].key@ && copies@[k].value@
                                == members@[k].value@,
                    decreases members.len() - i,
                {
                    proof {
                        // The member's value is a part of the object, and so smaller.
                        assert(self->Object_0 == *members);
                        assert(decreases_to!(members[i as int] => members[i as int].value));
                    }
                    copies.push(
                        Member { key: members[i].key.clone(), value: members[i].value.clone() },
                    );
                    i += 1;
                }
                proof {
                    lemma_object_view(*members);
                    lemma_object_view(copies);
                    assert(members_view(copies@) =~= members_view(members@));
                }
                Json::Object(copies)
            },
        }
    }
}

impl Clone for Member {
    /// A copy of the member, name and value.
    fn clone(&self) -> (copy: Member)
        ensures
            copy.key@ == self.key@,
            copy.value@ == self.value@,
    {
        Member { key: self.key.clone(), value: self.value.clone() }
    }
}

/// What a JSON text holds: the tree it denotes, or `None` where the text is
/// not one well-formed JSON value.
pub uninterp spec fn json_document(text: Seq<char>) -> Option<JsonValue>;

/// The tree of a parsed document, `None` where there is none.
pub open spec fn document_view(doc: Option<Json>) -> Option<JsonValue> {
    match doc {
        Some(json) => Some(json@),
        None => None,
    }
}

/// `serde_json::Value`, carried through as it is: nothing is known of what
/// is inside one.
#[verifier::external_type_specification]
#[verifier::external_body]
pub struct ExValue(serde_json::Value);

/// Rebuilds a `serde_json::Value` as a [`Json`], variant by variant. A number
/// becomes the text that `serde_json` prints for it; the members of an object
/// come in the order in which `serde_json::Map` hands them out.
#[verifier::external_body]
fn lower(value: serde_json::Value) -> Json {
    match value {
        serde_json::Value::Null => Json::Null,
        serde_json::Value::Bool(b) => Json::Bool(b),
        serde_json::Value::Number(n) => Json::Number(n.to_string()),
        serde_json::Value::String(s) => Json::Text(s),
        serde_json::Value::Array(items) => Json::Array(items.into_iter().map(lower).collect()),
        serde_json::Value::Object(members) => Json::Object(
            members.into_iter().map(|(key, value)| Member { key, value: lower(value) }).collect(),
        ),
    }
}

/// Reads `text` with `serde_json::from_str`. Nothing is proved of the
/// reading itself: the contract only gives its result the name
/// [`json_document`], so that the same text always stands for the same tree.
#[verifier::external_body]
pub(crate) fn parse_document(text: &str) -> (doc: Option<Json>)
    ensures
        document_view(doc) == json_document(text@),
{
    match serde_json::from_str::<serde_json::Value>(text) {
        Ok(value) => Some(lower(value)),
        Err(_) => None,
    }
}

} // verus!
