//! The headers of a response as a mapping from name to value, where a name
//! that comes again replaces what came before. The mapping is kept in a
//! `serde_json::Map` whose values are all strings.

use crate::json::{as_text, empty_object, lookup, object_of, put, text_value, Json};
use serde_json::Value;
use vstd::prelude::*;

verus! {

/// The mapping that a list of pairs collapses to when each pair is entered in
/// turn: of pairs with one name, the last one wins.
pub open spec fn collapsed(list: Seq<(Seq<char>, Seq<char>)>) -> Map<Seq<char>, Seq<char>>
    decreases list.len(),
{
    if list.len() == 0 {
        Map::empty()
    } else {
        collapsed(list.drop_last()).insert(list.last().0, list.last().1)
    }
}

/// The names of a collapsed list are the names in the list.
pub proof fn lemma_collapsed_names(list: Seq<(Seq<char>, Seq<char>)>)
    ensures
        forall|k: Seq<char>| #[trigger]
            collapsed(list).contains_key(k) <==> exists|i: int|
                0 <= i < list.len() && (#[trigger] list[i]).0 == k,
        collapsed(list).dom().finite(),
    decreases list.len(),
{
    if list.len() > 0 {
        let front = list.drop_last();
        lemma_collapsed_names(front);
        assert forall|k: Seq<char>| #[trigger]
            collapsed(list).contains_key(k) <==> exists|i: int|
                0 <= i < list.len() && (#[trigger] list[i]).0 == k by {
            if collapsed(list).contains_key(k) {
                if k == list.last().0 {
                    assert(list[list.len() - 1].0 == k);
                } else {
                    let i = choose|i: int| 0 <= i < front.len() && (#[trigger] front[i]).0 == k;
                    assert(list[i].0 == k);
                }
            }
            if exists|i: int| 0 <= i < list.len() && (#[trigger] list[i]).0 == k {
                let i = choose|i: int| 0 <= i < list.len() && (#[trigger] list[i]).0 == k;
                if i < front.len() {
                    assert(front[i].0 == k);
                }
            }
        }
    }
}

/// Of pairs with one name, the last one wins: the value under a name is that
/// of the last pair with the name.
pub proof fn lemma_last_one_wins(list: Seq<(Seq<char>, Seq<char>)>, i: int)
    requires
        0 <= i < list.len(),
        forall|j: int| i < j < list.len() ==> (#[trigger] list[j]).0 != list[i].0,
    ensures
        collapsed(list).contains_key(list[i].0),
        collapsed(list)[list[i].0] == list[i].1,
    decreases list.len(),
{
    if i < list.len() - 1 {
        let front = list.drop_last();
        assert(front[i] == list[i]);
        assert forall|j: int| i < j < front.len() implies (#[trigger] front[j]).0
            != front[i].0 by {
            assert(front[j] == list[j]);
        }
        lemma_last_one_wins(front, i);
        assert(list[list.len() - 1].0 != list[i].0);
    }
}

/// The object that a header mapping is written as: each value as a string
/// under its name.
pub open spec fn headers_json(h: Map<Seq<char>, Seq<char>>) -> Map<Seq<char>, Json> {
    h.map_values(|v: Seq<char>| Json::Text(v))
}

/// The header mapping that an object of strings stands for.
pub open spec fn header_texts(m: Map<Seq<char>, Json>) -> Map<Seq<char>, Seq<char>> {
    m.map_values(|j: Json| j->Text_0)
}

/// Whether every value of an object is a string.
pub open spec fn all_texts(m: Map<Seq<char>, Json>) -> bool {
    forall|k: Seq<char>| m.contains_key(k) ==> (#[trigger] m[k]) is Text
}

/// The headers of a response: a mapping from name to value.
#[derive(Debug, PartialEq, Eq)]
pub struct Headers {
    fields: serde_json::Map<String, Value>,
}

impl View for Headers {
    type V = Map<Seq<char>, Seq<char>>;

    closed spec fn view(&self) -> Map<Seq<char>, Seq<char>> {
        header_texts(object_of(self.fields))
    }
}

impl Headers {
    #[verifier::type_invariant]
    spec fn holds_texts(self) -> bool {
        all_texts(object_of(self.fields))
    }

    /// Headers with no entry.
    pub fn new() -> (r: Headers)
        ensures
            r@ == Map::<Seq<char>, Seq<char>>::empty(),
    {
        let fields = empty_object();
        assert(header_texts(object_of(fields)) =~= Map::<Seq<char>, Seq<char>>::empty());
        Headers { fields }
    }

    /// Enters a header. A value already entered under the name is replaced.
    pub fn set(&mut self, name: String, value: String)
        ensures
            final(self)@ == old(self)@.insert(name@, value@),
    {
        proof {
            use_type_invariant(&*self);
        }
        let ghost before = object_of(self.fields);
        let mut fields = empty_object();
        std::mem::swap(&mut fields, &mut self.fields);
        let _ = put(&mut fields, name, text_value(value));
        proof {
            let after = before.insert(name@, Json::Text(value@));
            assert(object_of(fields) == after);
            assert(header_texts(after) =~= header_texts(before).insert(name@, value@));
            assert(all_texts(after)) by {
                assert forall|k: Seq<char>| after.contains_key(k) implies (#[trigger] after[k])
                    is Text by {
                    if k != name@ {
                        assert(before.contains_key(k));
                    }
                }
            }
        }
        self.fields = fields;
    }

    /// The value entered under a name, if any.
    pub fn get(&self, name: &str) -> (r: Option<&str>)
        ensures
            match r {
                Some(v) => self@.contains_key(name@) && self@[name@] == v@,
                None => !self@.contains_key(name@),
            },
    {
        proof {
            use_type_invariant(self);
        }
        match lookup(&self.fields, name) {
            Some(v) => {
                let text = as_text(v);
                assert(text is Some) by {
                    assert(object_of(self.fields)[name@] is Text);
                }
                text
            },
            None => None,
        }
    }

    /// The mapping as an object whose values are the header values as
    /// strings.
    pub fn fields(&self) -> (r: &serde_json::Map<String, Value>)
        ensures
            object_of(*r) == headers_json(self@),
    {
        proof {
            use_type_invariant(self);
            assert(headers_json(header_texts(object_of(self.fields))) =~= object_of(self.fields));
        }
        &self.fields
    }
}

} // verus!
