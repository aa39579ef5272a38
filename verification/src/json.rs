//! JSON documents as the verified code sees them.
//!
//! Documents are parsed and held by `serde_json`. Verified code never looks
//! inside a `serde_json::Value`; it reasons about the document tree that the
//! value holds, written [`Json`], and reaches the value through the few
//! operations specified here.

use vstd::prelude::*;

verus! {

/// The tree of a JSON document.
pub enum Json {
    Null,
    Bool(bool),
    /// A number, kept as the text `serde_json` prints for it.
    Number(Seq<char>),
    String(Seq<char>),
    Array(Seq<Json>),
    Object(Map<Seq<char>, Json>),
}

impl Json {
    /// The member `key` of an object; `None` for a missing member and for
    /// anything that is not an object.
    pub open spec fn member(self, key: Seq<char>) -> Option<Json> {
        match self {
            Json::Object(members) => if members.contains_key(key) {
                Some(members[key])
            } else {
                None
            },
            _ => None,
        }
    }

    /// The members of an object, `None` for any other document.
    pub open spec fn as_members(self) -> Option<Map<Seq<char>, Json>> {
        match self {
            Json::Object(members) => Some(members),
            _ => None,
        }
    }

    /// The text of a string, `None` for any other document.
    pub open spec fn as_text(self) -> Option<Seq<char>> {
        match self {
            Json::String(text) => Some(text),
            _ => None,
        }
    }
}

/// Every member is a string.
pub open spec fn all_text(members: Map<Seq<char>, Json>) -> bool {
    forall|name: Seq<char>| #[trigger] members.contains_key(name) ==> members[name] is String
}

/// Every member is a string or an object whose members are all strings.
pub open spec fn shallow(members: Map<Seq<char>, Json>) -> bool {
    forall|name: Seq<char>| #[trigger]
        members.contains_key(name) ==> (members[name] is String || (members[name] matches Json::Object(
            inner,
        ) && all_text(inner)))
}

/// `serde_json::Value`, opaque to Verus.
#[verifier::external_type_specification]
#[verifier::external_body]
pub struct ExValue(serde_json::Value);

/// `serde_json::Map`, opaque to Verus.
#[verifier::external_type_specification]
#[verifier::external_body]
#[verifier::reject_recursive_types(K)]
#[verifier::reject_recursive_types(V)]
pub struct ExJsonMap<K, V>(serde_json::Map<K, V>);

/// `serde_json::Error`, opaque to Verus.
#[verifier::external_type_specification]
#[verifier::external_body]
pub struct ExJsonError(serde_json::Error);

/// The document tree held by a `serde_json::Value`.
pub uninterp spec fn json_value(value: serde_json::Value) -> Json;

/// The members held by a `serde_json::Map`, each with its document tree.
pub uninterp spec fn json_members(map: serde_json::Map<String, serde_json::Value>) -> Map<Seq<char>, Json>;

/// What `serde_json::from_slice` makes of a byte string: the document it
/// reads, or `None` where it reports an error.
pub uninterp spec fn json_parsing(bytes: Seq<u8>) -> Option<Json>;

/// Calls `serde_json::from_slice` for a `serde_json::Value`.
///
/// Trusted: the outcome depends on the bytes alone, and a value that comes
/// back holds the document that [`json_parsing`] names.
#[verifier::external_body]
pub(crate) fn parse_json(bytes: &[u8]) -> (parsed: Result<serde_json::Value, serde_json::Error>)
    ensures
        match parsed {
            Ok(value) => json_parsing(bytes@) == Some(json_value(value)),
            Err(_) => json_parsing(bytes@) is None,
        },
{
    serde_json::from_slice::<serde_json::Value>(bytes)
}

/// Calls `serde_json::Value::get` with a string index.
///
/// Trusted: a string index finds the member of that name in an object, and
/// nothing in any other value.
#[verifier::external_body]
pub(crate) fn json_get<'a>(value: &'a serde_json::Value, key: &str) -> (found: Option<&'a serde_json::Value>)
    ensures
        match found {
            Some(member) => json_value(*value).member(key@) == Some(json_value(*member)),
            None => json_value(*value).member(key@) is None,
        },
{
    value.get(key)
}

/// Calls `serde_json::Value::as_object`.
///
/// Trusted: an object hands out its map, with the same members; any other
/// value gives `None`.
#[verifier::external_body]
pub(crate) fn json_as_object<'a>(value: &'a serde_json::Value) -> (object: Option<&'a serde_json::Map<String, serde_json::Value>>)
    ensures
        match object {
            Some(map) => json_value(*value).as_members() == Some(json_members(*map)),
            None => json_value(*value).as_members() is None,
        },
{
    value.as_object()
}

/// Calls `serde_json::Value::as_str`.
///
/// Trusted: a string hands out its text; any other value gives `None`.
#[verifier::external_body]
pub(crate) fn json_as_str<'a>(value: &'a serde_json::Value) -> (text: Option<&'a str>)
    ensures
        match text {
            Some(s) => json_value(*value).as_text() == Some(s@),
            None => json_value(*value).as_text() is None,
        },
{
    value.as_str()
}

} // verus!
