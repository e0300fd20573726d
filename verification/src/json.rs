//! JSON as text.
//!
//! A JSON value is held as a string: its text, in compact form. What has to be read out of
//! such a text (a member of an object, the content of a string, the items of
//! an array) is asked of `serde_json`. Each such call is a small trusted
//! function whose result is given a name, so that the contracts of the
//! functions built on it can say exactly which result they use.

use crate::text::{opt_view, pairs_view, strings_view};
use vstd::prelude::*;

verus! {

/// The member `key` of the JSON object written in `text`, as compact JSON
/// text; `None` if `text` is not JSON, is not an object or has no such member.
pub uninterp spec fn json_member_text(text: Seq<char>, key: Seq<char>) -> Option<Seq<char>>;

/// The content of the JSON string written in `text`; `None` if `text` is not
/// JSON or is not a string.
pub uninterp spec fn json_string_content(text: Seq<char>) -> Option<Seq<char>>;

/// The members of the JSON object written in `text`, each as its key and the
/// compact JSON text of its value, in the order in which `serde_json` walks
/// an object; `None` if `text` is not JSON or is not an object.
pub uninterp spec fn json_object_members(text: Seq<char>) -> Option<Seq<(Seq<char>, Seq<char>)>>;

/// The items of the JSON array written in `text`, each as compact JSON text;
/// `None` if `text` is not JSON or is not an array.
pub uninterp spec fn json_array_texts(text: Seq<char>) -> Option<Seq<Seq<char>>>;

/// The JSON string literal for `s`: quoted and escaped.
pub uninterp spec fn json_quoted(s: Seq<char>) -> Seq<char>;

/// The JSON value written in `text`, printed over several lines with an
/// indent of two spaces; `None` if `text` is not JSON.
pub uninterp spec fn json_pretty_text(text: Seq<char>) -> Option<Seq<char>>;

/// The JSON value written in `text`, printed on one line without spaces
/// between its tokens; the parser's message if `text` is not JSON.
pub uninterp spec fn json_compact_text(text: Seq<char>) -> Result<Seq<char>, Seq<char>>;

/// Calls `serde_json::from_str` on `text` and `serde_json::Value::get` with
/// `key` on what was parsed, and prints the member found with
/// `serde_json::Value`'s `to_string`. The contract only names the result.
#[verifier::external_body]
pub(crate) fn member(text: &str, key: &str) -> (r: Option<String>)
    ensures
        opt_view(r) == json_member_text(text@, key@),
{
    let value = serde_json::from_str::<serde_json::Value>(text).ok()?;
    value.get(key).map(|v| v.to_string())
}

/// Calls `serde_json::from_str` on `text` and `serde_json::Value::as_str` on
/// what was parsed. The contract only names the result.
#[verifier::external_body]
pub(crate) fn string_content(text: &str) -> (r: Option<String>)
    ensures
        opt_view(r) == json_string_content(text@),
{
    let value = serde_json::from_str::<serde_json::Value>(text).ok()?;
    value.as_str().map(|s| s.to_string())
}

/// Calls `serde_json::from_str` on `text` and `serde_json::Value::as_object`
/// on what was parsed, and walks the object with `serde_json::Map::iter`,
/// printing each value with `to_string`. The contract only names the result.
#[verifier::external_body]
pub(crate) fn object_members(text: &str) -> (r: Option<Vec<(String, String)>>)
    ensures
        match r {
            Some(v) => json_object_members(text@) == Some(pairs_view(v@)),
            None => json_object_members(text@) is None,
        },
{
    let value = serde_json::from_str::<serde_json::Value>(text).ok()?;
    let object = value.as_object()?;
    Some(object.iter().map(|(k, v)| (k.clone(), v.to_string())).collect())
}

/// Calls `serde_json::from_str` on `text` and `serde_json::Value::as_array`
/// on what was parsed, printing each item with `to_string`. The contract only
/// names the result.
#[verifier::external_body]
pub(crate) fn array_texts(text: &str) -> (r: Option<Vec<String>>)
    ensures
        match r {
            Some(v) => json_array_texts(text@) == Some(strings_view(v@)),
            None => json_array_texts(text@) is None,
        },
{
    let value = serde_json::from_str::<serde_json::Value>(text).ok()?;
    let items = value.as_array()?;
    Some(items.iter().map(|v| v.to_string()).collect())
}

/// Calls `serde_json::to_string` on a string slice, which writes it as a JSON
/// string literal. The contract only names the result.
#[verifier::external_body]
pub(crate) fn quoted(s: &str) -> (r: String)
    ensures
        r@ == json_quoted(s@),
{
    serde_json::to_string(s).unwrap_or_default()
}

/// Calls `serde_json::from_str` on `text` and `serde_json::to_string_pretty`
/// on what was parsed. The contract only names the result.
#[verifier::external_body]
pub(crate) fn pretty(text: &str) -> (r: Option<String>)
    ensures
        opt_view(r) == json_pretty_text(text@),
{
    let value = serde_json::from_str::<serde_json::Value>(text).ok()?;
    serde_json::to_string_pretty(&value).ok()
}

/// Calls `serde_json::from_str` on `text` and `serde_json::Value`'s
/// `to_string` on what was parsed; where parsing fails, the error's message is
/// handed back. The contract only names the result.
#[verifier::external_body]
pub(crate) fn compact(text: &str) -> (r: Result<String, String>)
    ensures
        match r {
            Ok(t) => json_compact_text(text@) == Ok::<Seq<char>, Seq<char>>(t@),
            Err(e) => json_compact_text(text@) == Err::<Seq<char>, Seq<char>>(e@),
        },
{
    match serde_json::from_str::<serde_json::Value>(text) {
        Ok(value) => Ok(value.to_string()),
        Err(e) => Err(e.to_string()),
    }
}

/// Whether `t` is JSON in compact form: what `serde_json` prints, on one
/// line, for some JSON text that it has read.
pub open spec fn is_compact_json(t: Seq<char>) -> bool {
    exists|source: Seq<char>| json_compact_text(source) == Ok::<Seq<char>, Seq<char>>(t)
}

/// A JSON value, held as its text in compact form. A value of this type
/// can only be made by reading JSON, so its text is always compact JSON.
#[derive(Debug)]
pub struct JsonText {
    text: String,
}

impl Clone for JsonText {
    fn clone(&self) -> (r: Self)
        ensures
            r@ == self@,
    {
        self.duplicate()
    }
}

impl View for JsonText {
    type V = Seq<char>;

    closed spec fn view(&self) -> Seq<char> {
        self.text@
    }
}

impl JsonText {
    #[verifier::type_invariant]
    spec fn holds(self) -> bool {
        is_compact_json(self.text@)
    }

    /// Reads JSON: the value in compact form, or the parser's message if
    /// `text` is not JSON.
    pub fn parse(text: &str) -> (r: Result<JsonText, String>)
        ensures
            match r {
                Ok(j) => json_compact_text(text@) == Ok::<Seq<char>, Seq<char>>(j@),
                Err(e) => json_compact_text(text@) == Err::<Seq<char>, Seq<char>>(e@),
            },
    {
        match compact(text) {
            Ok(t) => {
                assert(json_compact_text(text@) == Ok::<Seq<char>, Seq<char>>(t@));
                Ok(JsonText { text: t })
            },
            Err(e) => Err(e),
        }
    }

    /// The text.
    pub fn as_str(&self) -> (r: &str)
        ensures
            r@ == self@,
    {
        self.text.as_str()
    }

    /// The text as an owned string.
    pub fn into_string(self) -> (r: String)
        ensures
            r@ == self@,
    {
        self.text
    }

    /// A copy of the value.
    pub fn duplicate(&self) -> (r: Self)
        ensures
            r@ == self@,
    {
        proof {
            use_type_invariant(self);
        }
        JsonText { text: self.text.clone() }
    }

    /// The text of every value is compact JSON: a call of this function
    /// brings the fact into the caller's proof. It does nothing when it runs.
    pub fn show_compact(&self)
        ensures
            is_compact_json(self@),
    {
        proof {
            use_type_invariant(self);
        }
    }
}

} // verus!
