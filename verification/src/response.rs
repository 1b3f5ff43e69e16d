//! The response descriptor: what a completed exchange hands back across the
//! bridge.

use crate::headers::{collapsed, Headers};
use crate::json::{is_well_formed, json_of, parse, parse_of, Json};
use crate::status::{is_status, StatusCode};
use serde_json::Value;
use vstd::prelude::*;

verus! {

/// A header as the transport read it: the value is `None` where its bytes
/// could not be read as text.
#[derive(Debug, Clone, PartialEq, Eq)]
pub struct RawHeader {
    pub name: String,
    pub value: Option<String>,
}

impl View for RawHeader {
    type V = (Seq<char>, Option<Seq<char>>);

    open spec fn view(&self) -> (Seq<char>, Option<Seq<char>>) {
        (
            self.name@,
            match self.value {
                Some(v) => Some(v@),
                None => None,
            },
        )
    }
}

/// The headers of a list as the transport read them.
pub open spec fn raw_pairs(v: Seq<RawHeader>) -> Seq<(Seq<char>, Option<Seq<char>>)> {
    v.map_values(|h: RawHeader| h@)
}

/// The value a raw header stands for: its text, or the empty text where it
/// could not be read.
pub open spec fn readable(value: Option<Seq<char>>) -> Seq<char> {
    match value {
        Some(v) => v,
        None => Seq::empty(),
    }
}

/// The pairs that raw headers stand for, in the same order.
pub open spec fn read_pairs(raw: Seq<(Seq<char>, Option<Seq<char>>)>) -> Seq<
    (Seq<char>, Seq<char>),
> {
    raw.map_values(|h: (Seq<char>, Option<Seq<char>>)| (h.0, readable(h.1)))
}

/// The mapping that raw headers flatten to: each is entered in turn under its
/// name, an unreadable value as the empty text, and of headers with one name
/// the last one wins.
pub open spec fn flattened(raw: Seq<(Seq<char>, Option<Seq<char>>)>) -> Map<Seq<char>, Seq<char>> {
    collapsed(read_pairs(raw))
}

/// The body of a response: structured data where the payload was well-formed
/// interchange text, the payload itself as a string where it was not.
#[derive(Debug, Clone, PartialEq)]
pub enum Payload {
    Structured(Value),
    Text(String),
}

impl Payload {
    /// The structured value the body stands for: a body kept as text stands
    /// for the string with that text.
    pub open spec fn json(self) -> Json {
        match self {
            Payload::Structured(v) => json_of(v),
            Payload::Text(s) => Json::Text(s@),
        }
    }
}

/// What decoding makes of a text: the value it denotes where the text is
/// well-formed, the text itself as a string where it is not.
pub open spec fn decoded(text: Seq<char>) -> Json {
    match parse_of(text) {
        Some(j) => j,
        None => Json::Text(text),
    }
}

/// Decodes a payload. Decoding never fails: a text that is not well-formed
/// interchange text comes back unchanged, tagged as text, and nothing else
/// does.
pub fn decode(text: String) -> (r: Payload)
    ensures
        r.json() == decoded(text@),
        match r {
            Payload::Structured(v) => parse_of(text@) == Some(json_of(v)),
            Payload::Text(s) => !is_well_formed(text@) && s@ == text@,
        },
{
    match parse(text.as_str()) {
        Ok(v) => Payload::Structured(v),
        Err(_) => Payload::Text(text),
    }
}

/// The model of a [`ResponseDescriptor`].
pub struct ResponseView {
    pub status: int,
    pub headers: Map<Seq<char>, Seq<char>>,
    pub body: Json,
}

/// The response that a status, raw headers and a payload text assemble to.
pub open spec fn response_for(
    status: int,
    raw: Seq<(Seq<char>, Option<Seq<char>>)>,
    text: Seq<char>,
) -> ResponseView {
    ResponseView { status, headers: flattened(raw), body: decoded(text) }
}

/// A completed response.
#[derive(Debug, PartialEq)]
pub struct ResponseDescriptor {
    pub status: StatusCode,
    pub headers: Headers,
    pub body: Payload,
}

impl View for ResponseDescriptor {
    type V = ResponseView;

    open spec fn view(&self) -> ResponseView {
        ResponseView { status: self.status@, headers: self.headers@, body: self.body.json() }
    }
}

/// Flattens the headers of a response into a mapping.
pub fn flatten(raw: Vec<RawHeader>) -> (r: Headers)
    ensures
        r@ == flattened(raw_pairs(raw@)),
{
    let ghost all = read_pairs(raw_pairs(raw@));
    let mut out = Headers::new();
    let mut i: usize = 0;
    assert(all.take(0) =~= Seq::empty());
    while i < raw.len()
        invariant
            i <= raw.len(),
            all == read_pairs(raw_pairs(raw@)),
            out@ == collapsed(all.take(i as int)),
        decreases raw.len() - i,
    {
        let name = raw[i].name.clone();
        let value = match &raw[i].value {
            Some(v) => v.clone(),
            None => String::new(),
        };
        proof {
            assert(all.take(i + 1).drop_last() =~= all.take(i as int));
            assert(all.take(i + 1).last() == (name@, value@));
        }
        out.set(name, value);
        i = i + 1;
    }
    assert(all.take(raw.len() as int) =~= all);
    out
}

impl ResponseDescriptor {
    /// Assembles the response of a completed exchange: the status as it came,
    /// the headers flattened, the payload decoded. A payload that is not
    /// well-formed interchange text is kept as a string; it fails nothing.
    pub fn assemble(status: StatusCode, raw: Vec<RawHeader>, text: String) -> (r:
        ResponseDescriptor)
        ensures
            r@ == response_for(status@, raw_pairs(raw@), text@),
            is_status(r@.status),
            r.body is Text <==> !is_well_formed(text@),
            r.body matches Payload::Text(s) ==> s@ == text@,
    {
        let code = status.code();
        let headers = flatten(raw);
        let body = decode(text);
        ResponseDescriptor { status, headers, body }
    }
}

} // verus!
