//! The JSON form of the facts, written by `serde_json`.

use vstd::prelude::*;
use crate::text::texts;

verus! {

/// The error that `serde_json` gives where it cannot write a value.
#[verifier::external_type_specification]
#[verifier::external_body]
pub struct ExJsonError(serde_json::Error);

/// What `serde_json::to_string_pretty` writes for the object whose members
/// have the given keys and, each a string, the given values, put in as they
/// come.
pub uninterp spec fn pretty_json(keys: Seq<Seq<char>>, values: Seq<Seq<char>>) -> Seq<char>;

/// `serde_json::to_string_pretty` on a JSON object with string members.
///
/// The members are put into a `serde_json::Map` in the order given, each
/// value as a JSON string, and the map is written out as pretty-printed
/// text. What is written depends on the keys and the values alone. The
/// writing succeeds: `serde_json` names two ways to fail, a value that
/// refuses to be written and a key that is no string, and an object of
/// strings under string keys has neither; the text goes into a byte vector,
/// which takes every write.
#[verifier::external_body]
pub(crate) fn to_pretty_json(keys: &Vec<String>, values: &Vec<String>) -> (out: Result<
    String,
    serde_json::Error,
>)
    ensures
        out is Ok,
        out matches Ok(text) ==> text@ == pretty_json(texts(keys@), texts(values@)),
{
    let mut object = serde_json::Map::new();
    for (key, value) in keys.iter().zip(values.iter()) {
        object.insert(key.clone(), serde_json::Value::String(value.clone()));
    }
    serde_json::to_string_pretty(&serde_json::Value::Object(object))
}

} // verus!
