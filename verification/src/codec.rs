//! The value codec: a response descriptor as interchange text, and that text
//! as a piece of script source.

use crate::headers::headers_json;
use crate::json::{
    empty_object, number_value, object_of, object_value, print, put, text_of,
    text_value, Json, JsonNumber,
};
use crate::response::{Payload, ResponseDescriptor, ResponseView};
use serde_json::Value;
use vstd::prelude::*;

verus! {

impl ResponseView {
    /// The structured value a response is written as: an object with the
    /// status under `status`, the headers under `headers` and the body under
    /// `data`.
    pub open spec fn json(self) -> Json {
        Json::Object(
            Map::<Seq<char>, Json>::empty().insert(
                "status"@,
                Json::Number(JsonNumber::Integer(self.status)),
            ).insert("headers"@, Json::Object(headers_json(self.headers))).insert(
                "data"@,
                self.body,
            ),
        )
    }
}

/// The response as an object of structured values: the status under
/// `status`, the headers under `headers` and the body under `data`.
pub fn to_object(d: &ResponseDescriptor) -> (r: serde_json::Map<String, Value>)
    ensures
        Json::Object(object_of(r)) == d@.json(),
{
    let headers = d.headers.fields().clone();
    let data = match &d.body {
        Payload::Structured(v) => v.clone(),
        Payload::Text(s) => text_value(s.clone()),
    };
    let mut out = empty_object();
    let _ = put(&mut out, "status".to_owned(), number_value(d.status.code()));
    let _ = put(&mut out, "headers".to_owned(), object_value(headers));
    let _ = put(&mut out, "data".to_owned(), data);
    out
}

/// Writes a response as interchange text. Encoding never fails: the text is
/// always the compact JSON of the object with the status under `status`, the
/// headers under `headers` and the body under `data`.
pub fn encode(d: &ResponseDescriptor) -> (r: Result<String, serde_json::Error>)
    ensures
        r matches Ok(s) && s@ == text_of(d@.json()),
{
    let out = to_object(d);
    print(&out)
}

} // verus!
