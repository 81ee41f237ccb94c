use vstd::prelude::*;

pub mod adapter;
pub mod codec;

verus! {

/// A wrapper whose serialized form is its value rendered as a pretty JSON
/// string, rather than the value's own structured form.
pub struct JsonPretty<T>(pub T);

impl<T> JsonPretty<T> {
    pub fn new(value: T) -> (r: Self)
        ensures
            r.0 == value,
    {
        JsonPretty(value)
    }

    pub fn into_inner(self) -> (r: T)
        ensures
            r == self.0,
    {
        self.0
    }
}

/// Why the adapter could not write or read a value. Each variant carries the
/// codec's own report.
#[derive(Debug)]
pub enum PrettyError {
    /// The value could not be written as JSON text.
    Encoding(serde_json::Error),
    /// The field was not a string where a pretty JSON string was expected.
    NotAString(serde_json::Error),
    /// The string's content is not JSON text of the expected shape.
    BadContent(serde_json::Error),
}

} // verus!
