//! What the library takes from elsewhere: SHA-256, JSON and UTF-8 decoding.
//!
//! Nothing in this module is proved. Each function makes one call, and its
//! contract says what the rest of the library relies on.

use sha2::Digest;
use vstd::prelude::*;
use vstd::utf8::*;

verus! {

/// The SHA-256 digest of a byte string.
pub uninterp spec fn sha256_digest(data: Seq<u8>) -> Seq<u8>;

/// `sha2::Sha256::digest`: the digest depends on the bytes alone and has 32
/// bytes. That different inputs have different digests is not claimed.
#[verifier::external_body]
pub(crate) fn sha256(data: &[u8]) -> (r: Vec<u8>)
    ensures
        r@ == sha256_digest(data@),
        r@.len() == 32,
{
    sha2::Sha256::digest(data).to_vec()
}

/// The text that a byte string decodes to when what is not UTF-8 in it is
/// replaced.
pub uninterp spec fn utf8_lossy(bytes: Seq<u8>) -> Seq<char>;

/// `String::from_utf8_lossy`: the text depends on the bytes alone, and bytes
/// that are UTF-8 throughout decode to the text they encode. Where the
/// replacement characters stand in other texts is not claimed.
#[verifier::external_body]
pub(crate) fn from_utf8_lossy(bytes: &[u8]) -> (r: String)
    ensures
        r@ == utf8_lossy(bytes@),
        valid_utf8(bytes@) ==> r@ == decode_utf8(bytes@),
{
    String::from_utf8_lossy(bytes).into_owned()
}

/// `String::from_utf8`: a text exactly when the bytes are UTF-8, and then the
/// text that they encode.
#[verifier::external_body]
pub(crate) fn from_utf8(bytes: Vec<u8>) -> (r: Option<String>)
    ensures
        match r {
            Some(s) => valid_utf8(bytes@) && s@ == decode_utf8(bytes@),
            None => !valid_utf8(bytes@),
        },
{
    String::from_utf8(bytes).ok()
}

/// What a member of a JSON object holds, as far as the library looks at it:
/// the value of a boolean or a string, a number if it is an integer from 0 up
/// to 2^64 - 1, and of anything else only that it is something else.
pub enum Field<T> {
    Flag(bool),
    Number(Option<u64>),
    Text(T),
    Other,
}

/// A member of a JSON object.
pub struct Member<T> {
    pub key: T,
    pub value: Field<T>,
}

impl View for Field<String> {
    type V = Field<Seq<char>>;

    open spec fn view(&self) -> Field<Seq<char>> {
        match *self {
            Field::Flag(b) => Field::Flag(b),
            Field::Number(n) => Field::Number(n),
            Field::Text(t) => Field::Text(t@),
            Field::Other => Field::Other,
        }
    }
}

impl View for Member<String> {
    type V = Member<Seq<char>>;

    open spec fn view(&self) -> Member<Seq<char>> {
        Member { key: self.key@, value: self.value@ }
    }
}

/// The members with their texts seen as sequences of characters.
pub open spec fn member_views(members: Seq<Member<String>>) -> Seq<Member<Seq<char>>> {
    members.map_values(|m: Member<String>| m@)
}

/// The members of the JSON value that a text holds: those of the object, none
/// for a value that is not an object, and `None` for a text that is no JSON.
pub uninterp spec fn json_members(text: Seq<char>) -> Option<Seq<Member<Seq<char>>>>;

/// `serde_json::from_str` into a `serde_json::Value`, whose members
/// (`Value::as_object`, `Number::as_u64`) are handed out one by one: they
/// depend on the text alone, and no key occurs twice among them.
#[verifier::external_body]
pub(crate) fn parse_json(text: &str) -> (r: Option<Vec<Member<String>>>)
    ensures
        match r {
            Some(members) => json_members(text@) == Some(member_views(members@)) && (forall|
                i: int,
                j: int,
            |
                0 <= i < j < members@.len() ==> (#[trigger] members@[i]).key@
                    != (#[trigger] members@[j]).key@),
            None => json_members(text@) is None,
        },
{
    let value = serde_json::from_str::<serde_json::Value>(text).ok()?;
    let fields = value.as_object().into_iter().flatten().map(|(key, value)| Member {
        key: key.clone(),
        value: match value {
            serde_json::Value::Null => Field::Other,
            serde_json::Value::Bool(b) => Field::Flag(*b),
            serde_json::Value::Number(n) => Field::Number(n.as_u64()),
            serde_json::Value::String(s) => Field::Text(s.clone()),
            serde_json::Value::Array(_) => Field::Other,
            serde_json::Value::Object(_) => Field::Other,
        },
    });
    Some(fields.collect())
}

/// The members of an object are seen as they are, in their order.
pub proof fn law_members_are_seen_as_they_are(members: Seq<Member<String>>, i: int)
    requires
        0 <= i < members.len(),
    ensures
        member_views(members).len() == members.len(),
        member_views(members)[i].key == members[i].key@,
        member_views(members)[i].value == match members[i].value {
            Field::Flag(b) => Field::Flag(b),
            Field::Number(n) => Field::Number(n),
            Field::Text(t) => Field::Text(t@),
            Field::Other => Field::Other,
        },
{
}

} // verus!
