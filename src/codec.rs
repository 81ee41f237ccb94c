use vstd::prelude::*;

verus! {

#[verifier::external_type_specification]
#[verifier::external_body]
pub struct ExValue(serde_json::Value);

#[verifier::external_type_specification]
#[verifier::external_body]
pub struct ExError(serde_json::Error);

/// The indented JSON text that serde_json writes for the value `v`.
pub uninterp spec fn pretty_of(v: serde_json::Value) -> Seq<char>;

/// The JSON document that serde_json writes for a string scalar holding `s`.
pub uninterp spec fn quoted_of(s: Seq<char>) -> Seq<char>;

/// The string that serde_json reads from the document `doc`, if `doc` is a
/// JSON string scalar and nothing else.
pub uninterp spec fn unquoted_of(doc: Seq<char>) -> Option<Seq<char>>;

/// The value that serde_json reads from the text `s`, if it reads one.
pub uninterp spec fn parsed_of(s: Seq<char>) -> Option<serde_json::Value>;

/// Relies on `serde_json::to_string_pretty` on a `Value`: the value as
/// indented JSON text. A `Value` has string keys only and is written into a
/// `Vec`, so this cannot fail, and the text depends on the value alone.
#[verifier::external_body]
pub(crate) fn pretty_text(v: &serde_json::Value) -> (r: Result<String, serde_json::Error>)
    ensures
        r is Ok,
        r matches Ok(p) ==> p@ == pretty_of(*v),
{
    serde_json::to_string_pretty(v)
}

/// Relies on `serde_json::to_string` on a `str`: it writes the string as one
/// escaped JSON string scalar into a `Vec`, which cannot fail, and reading that
/// scalar back gives the same string.
#[verifier::external_body]
pub(crate) fn quote(s: &str) -> (r: Result<String, serde_json::Error>)
    ensures
        r is Ok,
        r matches Ok(d) ==> d@ == quoted_of(s@),
        r matches Ok(d) ==> unquoted_of(d@) == Some(s@),
{
    serde_json::to_string(s)
}

/// Relies on `serde_json::from_str::<String>`: it succeeds exactly on a
/// document that is one JSON string scalar, and gives that string.
#[verifier::external_body]
pub(crate) fn unquote(doc: &str) -> (r: Result<String, serde_json::Error>)
    ensures
        r is Ok <==> unquoted_of(doc@) is Some,
        r matches Ok(s) ==> unquoted_of(doc@) == Some(s@),
{
    serde_json::from_str::<String>(doc)
}

/// Relies on `serde_json::from_str::<serde_json::Value>`: the value read from
/// the text, or the codec's error where it reads none.
#[verifier::external_body]
pub(crate) fn parse_value(s: &str) -> (r: Result<serde_json::Value, serde_json::Error>)
    ensures
        r is Ok <==> parsed_of(s@) is Some,
        r matches Ok(v) ==> parsed_of(s@) == Some(v),
{
    serde_json::from_str::<serde_json::Value>(s)
}

} // verus!
