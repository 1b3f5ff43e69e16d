//! The verbs a request can be dispatched with, and how a method name given
//! by the script selects one.

use crate::failure::{FailureReason, ReasonView};
use crate::text::{same_text, to_upper, upper};
use vstd::prelude::*;

verus! {

/// An HTTP verb the transport can dispatch.
#[derive(Debug, Clone, Copy, PartialEq, Eq, Structural)]
pub enum Method {
    Get,
    Post,
    Put,
    Delete,
}

impl Method {
    /// The verb in upper case, as it goes on the wire.
    pub open spec fn name(self) -> Seq<char> {
        match self {
            Method::Get => "GET"@,
            Method::Post => "POST"@,
            Method::Put => "PUT"@,
            Method::Delete => "DELETE"@,
        }
    }

    /// The verb that an upper-case name stands for, if any.
    pub open spec fn of_upper(folded: Seq<char>) -> Option<Method> {
        if folded == "GET"@ {
            Some(Method::Get)
        } else if folded == "POST"@ {
            Some(Method::Post)
        } else if folded == "PUT"@ {
            Some(Method::Put)
        } else if folded == "DELETE"@ {
            Some(Method::Delete)
        } else {
            None
        }
    }

    /// The verb that a method name selects: names are matched without regard
    /// to case.
    pub open spec fn named(name: Seq<char>) -> Option<Method> {
        Method::of_upper(upper(name))
    }

    /// What selecting by name gives: the verb, or the failure that names the
    /// method as it was given.
    pub open spec fn selected(name: Seq<char>) -> Result<Method, ReasonView> {
        match Method::named(name) {
            Some(m) => Ok(m),
            None => Err(ReasonView::UnsupportedMethod { method: name }),
        }
    }

    /// The verb in upper case.
    pub fn as_str(&self) -> (r: &'static str)
        ensures
            r@ == self.name(),
    {
        match self {
            Method::Get => "GET",
            Method::Post => "POST",
            Method::Put => "PUT",
            Method::Delete => "DELETE",
        }
    }

    /// The verb that an upper-case name stands for, if any.
    pub fn from_upper(folded: &str) -> (r: Option<Method>)
        ensures
            r == Method::of_upper(folded@),
    {
        if same_text(folded, "GET") {
            Some(Method::Get)
        } else if same_text(folded, "POST") {
            Some(Method::Post)
        } else if same_text(folded, "PUT") {
            Some(Method::Put)
        } else if same_text(folded, "DELETE") {
            Some(Method::Delete)
        } else {
            None
        }
    }

    /// Selects the verb for a method name. Any name that is none of GET,
    /// POST, PUT, DELETE in some mix of cases is refused, with a failure that
    /// carries the name as given.
    pub fn parse(name: &str) -> (r: Result<Method, FailureReason>)
        ensures
            match Method::selected(name@) {
                Ok(m) => r == Ok::<Method, FailureReason>(m),
                Err(f) => r matches Err(e) && e@ == f,
            },
    {
        let folded = to_upper(name);
        match Method::from_upper(folded.as_str()) {
            Some(m) => Ok(m),
            None => Err(FailureReason::UnsupportedMethod { method: name.to_owned() }),
        }
    }
}

/// The four names are four different texts of ASCII capitals.
pub proof fn lemma_names(m: Method)
    ensures
        vstd::utf8::is_ascii_chars(m.name()),
        upper(m.name()) == m.name(),
        Method::of_upper(m.name()) == Some(m),
{
    reveal_strlit("GET");
    reveal_strlit("POST");
    reveal_strlit("PUT");
    reveal_strlit("DELETE");
    let n = m.name();
    assert(vstd::utf8::is_ascii_chars(n)) by {
        assert forall|i: int| 0 <= i < n.len() implies (#[trigger] n[i]) as nat <= 0x7f by {}
        reveal(vstd::utf8::is_ascii_chars);
    }
    assert(crate::text::ascii_upper(n) =~= n);
    match m {
        Method::Get => {},
        Method::Post => {
            assert("POST"@.len() != "GET"@.len());
        },
        Method::Put => {
            assert("PUT"@[0] != "GET"@[0]);
            assert("PUT"@.len() != "POST"@.len());
        },
        Method::Delete => {
            assert("DELETE"@.len() != "GET"@.len());
            assert("DELETE"@.len() != "POST"@.len());
            assert("DELETE"@.len() != "PUT"@.len());
        },
    }
}

/// Every supported verb is selected by its own name, exactly: a request made
/// with method GET, POST, PUT or DELETE is dispatched with that verb.
pub proof fn lemma_supported_method_selects_itself(m: Method)
    ensures
        Method::named(m.name()) == Some(m),
        Method::selected(m.name()) == Ok::<Method, ReasonView>(m),
{
    lemma_names(m);
}

/// A name that selects no verb is refused, and the failure carries that very
/// name; a name is refused exactly where its upper-case form is none of the
/// four.
pub proof fn lemma_unsupported_method_is_refused(name: Seq<char>)
    ensures
        Method::named(name) is None <==> Method::selected(name) is Err,
        Method::selected(name) matches Err(f) ==> f == (ReasonView::UnsupportedMethod {
            method: name,
        }) && f.detail() == name,
        Method::named(name) is None <==> (upper(name) != Method::Get.name() && upper(name)
            != Method::Post.name() && upper(name) != Method::Put.name() && upper(name)
            != Method::Delete.name()),
{
}

} // verus!
