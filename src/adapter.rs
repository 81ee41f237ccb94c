use vstd::prelude::*;

use crate::codec::{parse_value, parsed_of, pretty_of, pretty_text, quote, quoted_of, unquote, unquoted_of};
use crate::{JsonPretty, PrettyError};

verus! {

/// The value that a field document reads back to: the value parsed from the
/// content of the document's string scalar, if it is one and that content is
/// JSON text.
pub open spec fn field_value(doc: Seq<char>) -> Option<serde_json::Value> {
    match unquoted_of(doc) {
        Some(content) => parsed_of(content),
        None => None,
    }
}

/// A field that the adapter wrote reads back through its own pretty text: the
/// document holding `p` as a string scalar reads back to exactly what `p`
/// parses to, so the framing neither adds to nor loses from what was printed.
pub proof fn lemma_written_field_reads_back(doc: Seq<char>, p: Seq<char>)
    requires
        unquoted_of(doc) == Some(p),
    ensures
        field_value(doc) == parsed_of(p),
{
}

/// Frames the outcome of pretty-printing as the adapter's field in a JSON
/// document: one string scalar that holds the pretty text. A printing failure
/// is an encoding error. The field reads back to the very text that was framed.
pub fn frame_pretty_text(printed: Result<String, serde_json::Error>) -> (r: Result<String, PrettyError>)
    ensures
        printed matches Err(e) ==> r == Err::<String, PrettyError>(PrettyError::Encoding(e)),
        printed matches Ok(p) ==> r matches Ok(d) && d@ == quoted_of(p@),
        printed matches Ok(p) ==> r matches Ok(d) && unquoted_of(d@) == Some(p@),
        printed matches Ok(p) ==> r matches Ok(d) && field_value(d@) == parsed_of(p@),
{
    match printed {
        Ok(p) => match quote(p.as_str()) {
            Ok(d) => Ok(d),
            Err(e) => Err(PrettyError::Encoding(e)),
        },
        Err(e) => Err(PrettyError::Encoding(e)),
    }
}

/// Reads the content of a pretty JSON string as a value. Every form in which a
/// framework hands over the string (borrowed, owned, or of static lifetime)
/// comes here as a `&str`.
pub fn decode_pretty_text(content: &str) -> (r: Result<serde_json::Value, PrettyError>)
    ensures
        r is Ok <==> parsed_of(content@) is Some,
        r matches Ok(v) ==> parsed_of(content@) == Some(v),
        r matches Err(e) ==> e is BadContent,
{
    match parse_value(content) {
        Ok(v) => Ok(v),
        Err(e) => Err(PrettyError::BadContent(e)),
    }
}

impl JsonPretty<serde_json::Value> {
    /// The content of the string scalar that the adapter serializes to: the
    /// value as indented JSON text.
    pub fn pretty_content(&self) -> (r: Result<String, PrettyError>)
        ensures
            r matches Ok(p) && p@ == pretty_of(self.0),
    {
        match pretty_text(&self.0) {
            Ok(p) => Ok(p),
            Err(e) => Err(PrettyError::Encoding(e)),
        }
    }

    /// The adapter serialized into a JSON document: a string scalar that holds
    /// the value's pretty text, and that reads back to what that text parses to.
    pub fn to_pretty_field(&self) -> (r: Result<String, PrettyError>)
        ensures
            r matches Ok(d) && d@ == quoted_of(pretty_of(self.0)),
            r matches Ok(d) && unquoted_of(d@) == Some(pretty_of(self.0)),
            r matches Ok(d) && field_value(d@) == parsed_of(pretty_of(self.0)),
    {
        frame_pretty_text(pretty_text(&self.0))
    }

    /// Builds the adapter from the content of a pretty JSON string.
    pub fn from_pretty_str(content: &str) -> (r: Result<Self, PrettyError>)
        ensures
            r is Ok <==> parsed_of(content@) is Some,
            r matches Ok(x) ==> parsed_of(content@) == Some(x.0),
            r matches Err(e) ==> e is BadContent,
    {
        match decode_pretty_text(content) {
            Ok(v) => Ok(JsonPretty(v)),
            Err(e) => Err(e),
        }
    }

    /// Builds the adapter from its field in a JSON document. A document that is
    /// not a string scalar is refused as such; a string whose content is not
    /// JSON text is refused as bad content.
    pub fn from_pretty_field(doc: &str) -> (r: Result<Self, PrettyError>)
        ensures
            r matches Err(e) && e is NotAString <==> unquoted_of(doc@) is None,
            r matches Err(e) && e is BadContent <==> (unquoted_of(doc@) matches Some(c) && parsed_of(c) is None),
            r is Ok <==> field_value(doc@) is Some,
            r matches Ok(x) ==> field_value(doc@) == Some(x.0),
            !(r matches Err(e) && e is Encoding),
    {
        match unquote(doc) {
            Ok(content) => Self::from_pretty_str(content.as_str()),
            Err(e) => Err(PrettyError::NotAString(e)),
        }
    }
}

} // verus!
