//! What this library takes on trust from `serde_json`: how a JSON text is
//! read.

use std::collections::BTreeMap;
use vstd::prelude::*;

verus! {

/// The error type of `serde_json`. Nothing is known of a value of it.
#[verifier::external_type_specification]
#[verifier::external_body]
pub struct ExJsonError(serde_json::Error);

/// What `serde_json::from_str` makes of `text` when it is asked for a map
/// from strings to strings: the members of the JSON object that `text`
/// holds, each as its name and its value, in ascending order of the names;
/// or nothing, where `text` is not one JSON object whose values are all
/// strings. A name that the object gives more than once stands there once,
/// with the last of its values.
pub uninterp spec fn string_object(text: Seq<char>) -> Option<Seq<(Seq<char>, Seq<char>)>>;

/// The names and values of `members` as plain texts.
pub open spec fn members_view(members: Seq<(String, String)>) -> Seq<(Seq<char>, Seq<char>)> {
    members.map_values(|member: (String, String)| (member.0@, member.1@))
}

/// Calls `serde_json::from_str` for a `BTreeMap<String, String>` and hands
/// out the map's entries in the map's order. Taken on trust: the call fails
/// exactly where [`string_object`] has nothing for the text, and where it
/// succeeds the entries are those that [`string_object`] names. This claims
/// no more than that `serde_json` reads the same text the same way every
/// time.
#[verifier::external_body]
pub(crate) fn parse_string_object(text: &str) -> (r: Result<
    Vec<(String, String)>,
    serde_json::Error,
>)
    ensures
        match r {
            Ok(members) => string_object(text@) == Some(members_view(members@)),
            Err(_) => string_object(text@) is None,
        },
{
    let object: BTreeMap<String, String> = serde_json::from_str(text)?;
    Ok(object.into_iter().collect())
}

} // verus!
