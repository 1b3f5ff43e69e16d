//! The request descriptor: what one bridged call asks of the transport, built
//! from the target and the options the script gave.

use crate::failure::{FailureReason, ReasonView};
use crate::json::{as_object, as_text, json_of, keys_of, lookup, object_of, texts, Json};
use crate::order::{key_order, lemma_key_order};
use crate::method::Method;
use serde_json::Value;
use vstd::prelude::*;

verus! {

/// One header of a request or a response: a name and its value.
#[derive(Debug, Clone, PartialEq, Eq)]
pub struct Header {
    pub name: String,
    pub value: String,
}

impl View for Header {
    type V = (Seq<char>, Seq<char>);

    open spec fn view(&self) -> (Seq<char>, Seq<char>) {
        (self.name@, self.value@)
    }
}

/// The headers of a list, each as a pair of texts.
pub open spec fn pairs(v: Seq<Header>) -> Seq<(Seq<char>, Seq<char>)> {
    v.map_values(|h: Header| h@)
}

/// The model of a [`RequestDescriptor`].
pub struct RequestView {
    pub target: Seq<char>,
    pub method: Method,
    pub headers: Seq<(Seq<char>, Seq<char>)>,
    pub body: Option<Json>,
}

/// A normalized request, ready for the transport.
#[derive(Debug, Clone, PartialEq)]
pub struct RequestDescriptor {
    pub target: String,
    pub method: Method,
    pub headers: Vec<Header>,
    pub body: Option<Value>,
}

impl View for RequestDescriptor {
    type V = RequestView;

    open spec fn view(&self) -> RequestView {
        RequestView {
            target: self.target@,
            method: self.method,
            headers: pairs(self.headers@),
            body: match self.body {
                Some(v) => Some(json_of(v)),
                None => None,
            },
        }
    }
}

/// The options of a call as the script gave them: a mapping from key to
/// value, or none at all.
pub type OptionsView = Option<Map<Seq<char>, Json>>;

/// The method name the options give: the text under `method`, where there is
/// one and it is a string.
pub open spec fn method_name(options: OptionsView) -> Option<Seq<char>> {
    match options {
        Some(o) => if o.contains_key("method"@) && o["method"@] is Text {
            Some(o["method"@]->Text_0)
        } else {
            None
        },
        None => None,
    }
}

/// The verb the options select: GET where they name none, else the verb of
/// the name, else the failure that refuses the name.
pub open spec fn chosen_method(options: OptionsView) -> Result<Method, ReasonView> {
    match method_name(options) {
        Some(name) => Method::selected(name),
        None => Ok(Method::Get),
    }
}

/// The entries of `table` under `keys`, in that order, that hold a string:
/// each as the pair of its key and that string. Entries that hold anything
/// else are left out.
pub open spec fn string_entries(table: Map<Seq<char>, Json>, keys: Seq<Seq<char>>) -> Seq<
    (Seq<char>, Seq<char>),
>
    decreases keys.len(),
{
    if keys.len() == 0 {
        Seq::empty()
    } else {
        let rest = string_entries(table, keys.drop_last());
        let k = keys.last();
        if table[k] is Text {
            rest.push((k, table[k]->Text_0))
        } else {
            rest
        }
    }
}

/// The headers the options ask for: where `headers` is an object, its
/// string-valued entries in the order the object keeps; none otherwise.
pub open spec fn chosen_headers(options: OptionsView) -> Seq<(Seq<char>, Seq<char>)> {
    match options {
        Some(o) => if o.contains_key("headers"@) && o["headers"@] is Object {
            let table = o["headers"@]->Object_0;
            string_entries(table, key_order(table.dom()))
        } else {
            Seq::empty()
        },
        None => Seq::empty(),
    }
}

/// The body the options give: the value under `body`, if any.
pub open spec fn chosen_body(options: OptionsView) -> Option<Json> {
    match options {
        Some(o) => if o.contains_key("body"@) {
            Some(o["body"@])
        } else {
            None
        },
        None => None,
    }
}

/// The request that a target and options describe, or the failure that
/// refuses them. Only the method can be refused; keys other than `method`,
/// `headers` and `body` play no part.
pub open spec fn request_for(target: Seq<char>, options: OptionsView) -> Result<
    RequestView,
    ReasonView,
> {
    match chosen_method(options) {
        Ok(method) => Ok(
            RequestView {
                target,
                method,
                headers: chosen_headers(options),
                body: chosen_body(options),
            },
        ),
        Err(f) => Err(f),
    }
}

/// What [`string_entries`] keeps and what it leaves out: a pair is among the
/// entries exactly where its key is one of `keys` and the table holds that
/// string under it.
pub proof fn lemma_string_entries(table: Map<Seq<char>, Json>, keys: Seq<Seq<char>>)
    ensures
        forall|k: Seq<char>, v: Seq<char>| #[trigger]
            string_entries(table, keys).contains((k, v)) <==> (keys.contains(k) && table[k]
                == Json::Text(v)),
    decreases keys.len(),
{
    let out = string_entries(table, keys);
    if keys.len() == 0 {
        assert forall|k: Seq<char>, v: Seq<char>| #[trigger]
            out.contains((k, v)) <==> (keys.contains(k) && table[k] == Json::Text(v)) by {}
    } else {
        let front = keys.drop_last();
        let rest = string_entries(table, front);
        let last = keys.last();
        lemma_string_entries(table, front);
        assert forall|k: Seq<char>, v: Seq<char>| #[trigger]
            out.contains((k, v)) <==> (keys.contains(k) && table[k] == Json::Text(v)) by {
            assert(keys =~= front.push(last));
            if keys.contains(k) {
                let i = choose|i: int| 0 <= i < keys.len() && keys[i] == k;
                if i < front.len() {
                    assert(front[i] == k);
                }
            }
            if front.contains(k) {
                let i = choose|i: int| 0 <= i < front.len() && front[i] == k;
                assert(keys[i] == k);
            }
            assert(keys[keys.len() - 1] == last);
            if table[last] is Text {
                let pair = (last, table[last]->Text_0);
                assert(out == rest.push(pair));
                if out.contains((k, v)) {
                    let i = choose|i: int| 0 <= i < out.len() && out[i] == (k, v);
                    if i < rest.len() {
                        assert(rest[i] == (k, v));
                    }
                }
                if rest.contains((k, v)) {
                    let i = choose|i: int| 0 <= i < rest.len() && rest[i] == (k, v);
                    assert(out[i] == (k, v));
                }
                assert(out[out.len() - 1] == pair);
            }
        }
    }
}

/// Whether `applied` holds every string-valued entry of `table`, each under
/// its own key and with its own value, and nothing else.
pub open spec fn applies_strings_of(
    applied: Seq<(Seq<char>, Seq<char>)>,
    table: Map<Seq<char>, Json>,
) -> bool {
    &&& forall|k: Seq<char>| #[trigger]
        table.contains_key(k) && table[k] is Text ==> applied.contains((k, table[k]->Text_0))
    &&& forall|k: Seq<char>, v: Seq<char>| #[trigger]
        applied.contains((k, v)) ==> table.contains_key(k) && table[k] == Json::Text(v)
}

/// Whether `applied` is what the options ask for in headers: every
/// string-valued entry of their `headers` object and nothing else, and nothing
/// at all where they hold no such object.
pub open spec fn applies_headers_of(
    applied: Seq<(Seq<char>, Seq<char>)>,
    options: OptionsView,
) -> bool {
    match options {
        Some(o) => if o.contains_key("headers"@) && o["headers"@] is Object {
            applies_strings_of(applied, o["headers"@]->Object_0)
        } else {
            applied.len() == 0
        },
        None => applied.len() == 0,
    }
}

/// The model of the options handed to [`RequestDescriptor::from_options`].
pub open spec fn options_view(options: Option<&serde_json::Map<String, Value>>) -> OptionsView {
    match options {
        Some(m) => Some(object_of(*m)),
        None => None,
    }
}

/// The string-valued entries of a header table, in the order the table keeps.
pub fn header_entries(table: &serde_json::Map<String, Value>) -> (r: Vec<Header>)
    ensures
        pairs(r@) == string_entries(object_of(*table), key_order(object_of(*table).dom())),
        applies_strings_of(pairs(r@), object_of(*table)),
{
    let keys = keys_of(table);
    let ghost order = key_order(object_of(*table).dom());
    proof {
        lemma_key_order(texts(keys@), object_of(*table).dom());
    }
    let mut out: Vec<Header> = Vec::new();
    let mut i: usize = 0;
    assert(order.take(0) =~= Seq::empty());
    while i < keys.len()
        invariant
            i <= keys.len(),
            texts(keys@) == order,
            order.to_set() == object_of(*table).dom(),
            pairs(out@) == string_entries(object_of(*table), order.take(i as int)),
        decreases keys.len() - i,
    {
        let ghost k = order[i as int];
        assert(k == keys@[i as int]@);
        assert(order.take(i + 1).drop_last() =~= order.take(i as int));
        assert(order.take(i + 1).last() == k);
        assert(order.to_set().contains(k));
        match lookup(table, keys[i].as_str()) {
            Some(v) => match as_text(v) {
                Some(s) => {
                    let h = Header { name: keys[i].clone(), value: s.to_owned() };
                    proof {
                        assert(pairs(out@.push(h)) =~= pairs(out@).push(h@));
                    }
                    out.push(h);
                },
                None => {},
            },
            None => {
                assert(false);
            },
        }
        i = i + 1;
    }
    assert(order.take(keys.len() as int) =~= order);
    proof {
        lemma_string_entries(object_of(*table), order);
        assert forall|k: Seq<char>| #[trigger]
            object_of(*table).contains_key(k) implies order.contains(k) by {
            assert(order.to_set().contains(k));
        }
        assert forall|k: Seq<char>| #[trigger] order.contains(k) implies object_of(
            *table,
        ).contains_key(k) by {
            assert(order.to_set().contains(k));
        }
    }
    out
}

impl RequestDescriptor {
    /// Builds the request of one call. The method is GET unless the options
    /// name one; a name that is none of GET, POST, PUT, DELETE in some mix of
    /// cases fails the call with that name. Headers are the string-valued
    /// entries of the `headers` object, in its order. The body is the value
    /// under `body`.
    pub fn from_options(target: String, options: Option<&serde_json::Map<String, Value>>) -> (r:
        Result<RequestDescriptor, FailureReason>)
        ensures
            match request_for(target@, options_view(options)) {
                Ok(model) => r matches Ok(d) && d@ == model,
                Err(f) => r matches Err(e) && e@ == f,
            },
            r matches Ok(d) ==> applies_headers_of(d@.headers, options_view(options)),
    {
        let ghost model = options_view(options);
        match options {
            None => {
                let headers: Vec<Header> = Vec::new();
                assert(pairs(headers@) =~= chosen_headers(model));
                Ok(RequestDescriptor { target, method: Method::Get, headers, body: None })
            },
            Some(o) => {
                let method = match lookup(o, "method") {
                    Some(v) => match as_text(v) {
                        Some(name) => {
                            assert(method_name(model) == Some(name@));
                            match Method::parse(name) {
                                Ok(m) => m,
                                Err(e) => {
                                    return Err(e);
                                },
                            }
                        },
                        None => {
                            assert(method_name(model) is None);
                            Method::Get
                        },
                    },
                    None => {
                        assert(method_name(model) is None);
                        Method::Get
                    },
                };
                assert(chosen_method(model) == Ok::<Method, ReasonView>(method));
                let headers = match lookup(o, "headers") {
                    Some(v) => match as_object(v) {
                        Some(table) => header_entries(table),
                        None => Vec::new(),
                    },
                    None => Vec::new(),
                };
                assert(pairs(headers@) =~= chosen_headers(model));
                let body = match lookup(o, "body") {
                    Some(v) => Some(v.clone()),
                    None => None,
                };
                let d = RequestDescriptor { target, method, headers, body };
                assert(d@.body == chosen_body(model));
                Ok(d)
            },
        }
    }
}

} // verus!
