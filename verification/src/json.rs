//! JSON documents as the replies of the services hold them. Reading a
//! document from bytes is left to `serde_json`; what the pipeline looks up in
//! a document is defined and verified here.

use crate::text::same_text;
use vstd::prelude::*;

verus! {

/// `serde_json::Value`, carried as it is: nothing of its contents is claimed.
#[verifier::external_type_specification]
#[verifier::external_body]
pub struct ExValue(serde_json::Value);

/// `serde_json::Error`, carried as it is: nothing of its contents is claimed.
#[verifier::external_type_specification]
#[verifier::external_body]
pub struct ExParseError(serde_json::Error);

/// A member of a JSON object.
#[derive(Debug, PartialEq, Eq)]
pub struct Member {
    pub name: String,
    pub value: Json,
}

/// A JSON document. A number is held as its JSON text.
#[derive(Debug, PartialEq, Eq)]
pub enum Json {
    Null,
    Bool(bool),
    Number(String),
    Text(String),
    Array(Vec<Json>),
    Object(Vec<Member>),
}

/// The mathematical value of a [`Json`] document.
pub enum JsonTree {
    Null,
    Bool(bool),
    Number(Seq<char>),
    Text(Seq<char>),
    Array(Seq<JsonTree>),
    Object(Seq<MemberTree>),
}

/// The mathematical value of a [`Member`].
pub struct MemberTree {
    pub name: Seq<char>,
    pub value: JsonTree,
}

impl View for Json {
    type V = JsonTree;

    open spec fn view(&self) -> JsonTree
        decreases self,
    {
        match self {
            Json::Null => JsonTree::Null,
            Json::Bool(b) => JsonTree::Bool(*b),
            Json::Number(text) => JsonTree::Number(text@),
            Json::Text(text) => JsonTree::Text(text@),
            Json::Array(items) => JsonTree::Array(
                Seq::new(
                    items@.len(),
                    |i: int|
                        if 0 <= i < items@.len() {
                            items@[i]@
                        } else {
                            JsonTree::Null
                        },
                ),
            ),
            Json::Object(members) => JsonTree::Object(
                Seq::new(
                    members@.len(),
                    |i: int|
                        if 0 <= i < members@.len() {
                            MemberTree { name: members@[i].name@, value: members@[i].value@ }
                        } else {
                            MemberTree { name: Seq::empty(), value: JsonTree::Null }
                        },
                ),
            ),
        }
    }
}

/// The value of the first member with the given name, if there is one.
pub open spec fn first_named(members: Seq<MemberTree>, name: Seq<char>) -> Option<JsonTree>
    decreases members.len(),
{
    if members.len() == 0 {
        None
    } else if members[0].name == name {
        Some(members[0].value)
    } else {
        first_named(members.drop_first(), name)
    }
}

impl JsonTree {
    /// The member of an object by name; `None` for what is no object or has
    /// no such member.
    pub open spec fn member(self, name: Seq<char>) -> Option<JsonTree> {
        match self {
            JsonTree::Object(members) => first_named(members, name),
            _ => None,
        }
    }

    /// The element of an array by index; `None` for what is no array or is
    /// shorter.
    pub open spec fn element(self, index: int) -> Option<JsonTree> {
        match self {
            JsonTree::Array(items) => if 0 <= index < items.len() {
                Some(items[index])
            } else {
                None
            },
            _ => None,
        }
    }

    /// The characters of a string; `None` for what is no string.
    pub open spec fn text(self) -> Option<Seq<char>> {
        match self {
            JsonTree::Text(text) => Some(text),
            _ => None,
        }
    }

    /// The elements of an array; `None` for what is no array.
    pub open spec fn items(self) -> Option<Seq<JsonTree>> {
        match self {
            JsonTree::Array(items) => Some(items),
            _ => None,
        }
    }

    /// The string member of an object by name; `None` where there is no such
    /// member or it is no string.
    pub open spec fn text_member(self, name: Seq<char>) -> Option<Seq<char>> {
        match self.member(name) {
            Some(value) => value.text(),
            None => None,
        }
    }
}

/// The document that a sequence of bytes holds as JSON text, as
/// `serde_json::from_slice` reads it; `None` where it refuses the bytes.
pub uninterp spec fn json_document(bytes: Seq<u8>) -> Option<JsonTree>;

/// Turns a `serde_json::Value` into a [`Json`], variant by variant: a number
/// becomes its text as `serde_json` displays it, the members of an object
/// come in the order in which its map hands them out.
#[verifier::external_body]
fn from_value(value: &serde_json::Value) -> Json {
    match value {
        serde_json::Value::Null => Json::Null,
        serde_json::Value::Bool(b) => Json::Bool(*b),
        serde_json::Value::Number(n) => Json::Number(n.to_string()),
        serde_json::Value::String(s) => Json::Text(s.clone()),
        serde_json::Value::Array(a) => Json::Array(a.iter().map(from_value).collect()),
        serde_json::Value::Object(m) => Json::Object(
            m.iter().map(|(k, v)| Member { name: k.clone(), value: from_value(v) }).collect(),
        ),
    }
}

/// Calls `serde_json::from_slice` for a `serde_json::Value`. The document it
/// reads from given bytes is always the same one, named by
/// [`json_document`]; it fails exactly where that is `None`.
#[verifier::external_body]
fn read_value(bytes: &[u8]) -> (read: Result<Json, serde_json::Error>)
    ensures
        read is Ok <==> json_document(bytes@) is Some,
        read is Ok ==> json_document(bytes@) == Some(read->Ok_0@),
{
    serde_json::from_slice::<serde_json::Value>(bytes).map(|value| from_value(&value))
}

/// Reads a JSON document from bytes; `None` where the bytes are no JSON
/// text.
pub fn parse_document(bytes: &[u8]) -> (document: Option<Json>)
    ensures
        document.is_some() <==> json_document(bytes@) is Some,
        document.is_some() ==> json_document(bytes@) == Some(document->0@),
{
    match read_value(bytes) {
        Ok(document) => Some(document),
        Err(_) => None,
    }
}

impl View for Member {
    type V = MemberTree;

    open spec fn view(&self) -> MemberTree {
        MemberTree { name: self.name@, value: self.value@ }
    }
}

/// The values of the elements of an array.
pub open spec fn item_trees(items: Seq<Json>) -> Seq<JsonTree> {
    items.map_values(|item: Json| item@)
}

/// The values of the members of an object.
pub open spec fn member_trees(members: Seq<Member>) -> Seq<MemberTree> {
    members.map_values(|member: Member| member@)
}

impl MemberTree {
    /// A member whose value is a string.
    pub open spec fn text(name: Seq<char>, text: Seq<char>) -> MemberTree {
        MemberTree { name, value: JsonTree::Text(text) }
    }
}

impl Member {
    /// A member with the given name and value.
    pub fn new(name: &str, value: Json) -> (member: Member)
        ensures
            member@ == (MemberTree { name: name@, value: value@ }),
    {
        Member { name: String::from_str(name), value }
    }

    /// A member whose value is a string.
    pub fn text(name: &str, text: &str) -> (member: Member)
        ensures
            member@ == MemberTree::text(name@, text@),
    {
        Member { name: String::from_str(name), value: Json::string(text) }
    }
}

impl Json {
    /// An array of the given elements.
    pub fn array(items: Vec<Json>) -> (json: Json)
        ensures
            json@ == JsonTree::Array(item_trees(items@)),
    {
        let json = Json::Array(items);
        proof {
            assert(json@->Array_0 =~= item_trees(items@));
        }
        json
    }

    /// An object of the given members.
    pub fn object(members: Vec<Member>) -> (json: Json)
        ensures
            json@ == JsonTree::Object(member_trees(members@)),
    {
        let json = Json::Object(members);
        proof {
            assert(json@->Object_0 =~= member_trees(members@));
        }
        json
    }

    /// A JSON string with the given characters.
    pub fn string(text: &str) -> (json: Json)
        ensures
            json@ == JsonTree::Text(text@),
    {
        Json::Text(String::from_str(text))
    }

    /// The member of an object by name.
    pub fn member(&self, name: &str) -> (found: Option<&Json>)
        ensures
            match self@.member(name@) {
                Some(value) => found is Some && found->0@ == value,
                None => found is None,
            },
    {
        match self {
            Json::Object(members) => {
                let ghost all = self@->Object_0;
                proof {
                    assert(all.skip(0) =~= all);
                }
                let mut i: usize = 0;
                while i < members.len()
                    invariant
                        i <= members.len(),
                        self@ == JsonTree::Object(all),
                        all.len() == members@.len(),
                        forall|k: int|
                            0 <= k < members@.len() ==> all[k] == (MemberTree {
                                name: members@[k].name@,
                                value: members@[k].value@,
                            }),
                        first_named(all, name@) == first_named(all.skip(i as int), name@),
                    decreases members.len() - i,
                {
                    let member = &members[i];
                    proof {
                        assert(all.skip(i as int)[0] == all[i as int]);
                        assert(all.skip(i as int).drop_first() =~= all.skip(i + 1));
                    }
                    if same_text(member.name.as_str(), name) {
                        return Some(&member.value);
                    }
                    i += 1;
                }
                None
            },
            _ => None,
        }
    }

    /// The element of an array by index.
    pub fn element(&self, index: usize) -> (found: Option<&Json>)
        ensures
            match self@.element(index as int) {
                Some(value) => found is Some && found->0@ == value,
                None => found is None,
            },
    {
        match self {
            Json::Array(items) => if index < items.len() {
                Some(&items[index])
            } else {
                None
            },
            _ => None,
        }
    }

    /// The characters of a string.
    pub fn text(&self) -> (found: Option<&str>)
        ensures
            match self@.text() {
                Some(text) => found is Some && found->0@ == text,
                None => found is None,
            },
    {
        match self {
            Json::Text(text) => Some(text.as_str()),
            _ => None,
        }
    }

    /// The elements of an array.
    pub fn items(&self) -> (found: Option<&Vec<Json>>)
        ensures
            match self@.items() {
                Some(items) => found is Some && items.len() == found->0@.len() && forall|i: int|
                    0 <= i < items.len() ==> items[i] == (#[trigger] found->0@[i])@,
                None => found is None,
            },
    {
        match self {
            Json::Array(items) => Some(items),
            _ => None,
        }
    }

    /// The string member of an object by name.
    pub fn text_member(&self, name: &str) -> (found: Option<&str>)
        ensures
            match self@.text_member(name@) {
                Some(text) => found is Some && found->0@ == text,
                None => found is None,
            },
    {
        match self.member(name) {
            Some(value) => value.text(),
            None => None,
        }
    }
}

} // verus!
