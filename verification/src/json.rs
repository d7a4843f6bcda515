//! JSON response bodies.
//!
//! The library never inspects the structure of a backend response body; it
//! only demands that the body be well-formed JSON and carries the text along.
//! Well-formedness itself is decided by an outside parser.

use vstd::prelude::*;

verus! {

/// Whether a character sequence is a well-formed JSON document.
pub uninterp spec fn json_wf(s: Seq<char>) -> bool;

/// Relies on `serde_json::from_str::<serde_json::Value>`: decides, from the
/// text alone, whether it parses as a JSON document.
#[verifier::external_body]
fn parse_ok(s: &str) -> (r: bool)
    ensures
        r == json_wf(s@),
{
    serde_json::from_str::<serde_json::Value>(s).is_ok()
}

/// A JSON document held as its text.
pub struct JsonBody {
    text: String,
}

impl View for JsonBody {
    type V = Seq<char>;

    closed spec fn view(&self) -> Seq<char> {
        self.text@
    }
}

impl JsonBody {
    /// Accepts the text exactly when it is a well-formed JSON document.
    pub fn parse(text: String) -> (r: Option<JsonBody>)
        ensures
            r is Some <==> json_wf(text@),
            r is Some ==> r->0@ == text@,
    {
        if parse_ok(text.as_str()) {
            Some(JsonBody { text })
        } else {
            None
        }
    }

    /// Wraps text the library built itself.
    pub(crate) fn from_text(text: String) -> (r: JsonBody)
        ensures
            r@ == text@,
    {
        JsonBody { text }
    }

    /// The document text.
    pub fn text(&self) -> (r: &String)
        ensures
            r@ == self@,
    {
        &self.text
    }
}

} // verus!
