//! JSON objects as the library reads and writes them: by their members.

use vstd::prelude::*;

verus! {

/// A member of a JSON object.
pub enum Member {
    /// A string.
    Text(Seq<char>),
    /// A boolean.
    Flag(bool),
    /// Anything else.
    Other,
}

/// What the library writes into a JSON object.
pub enum Scalar {
    Text(String),
    Flag(bool),
}

impl Scalar {
    /// The member that the scalar becomes.
    pub open spec fn member(self) -> Member {
        match self {
            Scalar::Text(text) => Member::Text(text@),
            Scalar::Flag(flag) => Member::Flag(flag),
        }
    }
}

#[verifier::external_type_specification]
#[verifier::external_body]
pub struct ExValue(serde_json::Value);

#[verifier::external_type_specification]
#[verifier::external_body]
pub struct ExError(serde_json::Error);

#[verifier::external_type_specification]
#[verifier::external_body]
#[verifier::reject_recursive_types(K)]
#[verifier::reject_recursive_types(V)]
pub struct ExMap<K, V>(serde_json::Map<K, V>);

/// The members that an object holds.
pub uninterp spec fn members(object: serde_json::Map<String, serde_json::Value>) -> Map<
    Seq<char>,
    Member,
>;

/// The members that a JSON value holds: none where it is no object.
pub uninterp spec fn value_members(value: serde_json::Value) -> Map<Seq<char>, Member>;

/// What `serde_json` reads in `bytes`: the members of the value, or nothing where
/// the bytes are no JSON document.
pub uninterp spec fn parsed(bytes: Seq<u8>) -> Option<Map<Seq<char>, Member>>;

/// An object without nested values, numbers or nulls.
pub open spec fn is_flat(m: Map<Seq<char>, Member>) -> bool {
    forall|k: Seq<char>| m.contains_key(k) ==> !(#[trigger] m[k] is Other)
}

/// `serde_json::Map::new`: an object without members.
#[verifier::external_body]
pub(crate) fn new_object() -> (r: serde_json::Map<String, serde_json::Value>)
    ensures
        members(r) == (Map::<Seq<char>, Member>::empty()),
{
    serde_json::Map::new()
}

/// `serde_json::Map::insert` with a string or a boolean: the key holds it
/// afterwards, whatever it held before, and the other members stay.
#[verifier::external_body]
pub(crate) fn put(
    object: &mut serde_json::Map<String, serde_json::Value>,
    key: &str,
    scalar: Scalar,
)
    ensures
        members(*final(object)) == members(*old(object)).insert(key@, scalar.member()),
{
    object.insert(
        key.to_string(),
        match scalar {
            Scalar::Text(text) => serde_json::Value::String(text),
            Scalar::Flag(flag) => serde_json::Value::Bool(flag),
        },
    );
}

/// `serde_json::to_vec` on an object: the bytes are a JSON document, and reading
/// them gives the members back. Of an object that holds nested values or numbers
/// nothing is claimed.
#[verifier::external_body]
pub(crate) fn encode(object: &serde_json::Map<String, serde_json::Value>) -> (r: Result<
    Vec<u8>,
    serde_json::Error,
>)
    ensures
        is_flat(members(*object)) ==> match r {
            Ok(bytes) => parsed(bytes@) == Some(members(*object)),
            Err(_) => false,
        },
{
    serde_json::to_vec(object)
}

/// `serde_json::from_slice` into a `serde_json::Value`.
#[verifier::external_body]
pub(crate) fn parse(bytes: &[u8]) -> (r: Result<serde_json::Value, serde_json::Error>)
    ensures
        match r {
            Ok(value) => parsed(bytes@) == Some(value_members(value)),
            Err(_) => parsed(bytes@) is None,
        },
{
    serde_json::from_slice(bytes)
}

/// `serde_json::Value`'s string index followed by `as_str`: the string that the
/// member holds, or nothing where the value is no object, has no such member, or
/// the member is no string.
#[verifier::external_body]
pub(crate) fn text_member(value: &serde_json::Value, key: &str) -> (r: Option<String>)
    ensures
        match r {
            Some(text) => value_members(*value).contains_key(key@) && value_members(*value)[key@]
                == Member::Text(text@),
            None => !value_members(*value).contains_key(key@) || !(value_members(
                *value,
            )[key@] is Text),
        },
{
    match value[key].as_str() {
        Some(text) => Some(text.to_string()),
        None => None,
    }
}

} // verus!
