//! The status code of a response.

use vstd::prelude::*;

verus! {

/// The least status code a response can carry.
pub const STATUS_MIN: u16 = 100;

/// The greatest status code a response can carry.
pub const STATUS_MAX: u16 = 599;

/// Whether a number is a status code: an integer from 100 to 599.
pub open spec fn is_status(n: int) -> bool {
    STATUS_MIN <= n <= STATUS_MAX
}

/// A status code, always from 100 to 599.
#[derive(Debug, Clone, Copy, PartialEq, Eq)]
pub struct StatusCode {
    code: u16,
}

impl View for StatusCode {
    type V = int;

    closed spec fn view(&self) -> int {
        self.code as int
    }
}

impl StatusCode {
    #[verifier::type_invariant]
    spec fn in_range(self) -> bool {
        is_status(self.code as int)
    }

    /// The status code with the given number, where that number is one.
    pub fn new(n: u16) -> (r: Option<StatusCode>)
        ensures
            match r {
                Some(s) => is_status(n as int) && s@ == n,
                None => !is_status(n as int),
            },
    {
        if STATUS_MIN <= n && n <= STATUS_MAX {
            Some(StatusCode { code: n })
        } else {
            None
        }
    }

    /// The number of the status code.
    pub fn code(&self) -> (r: u16)
        ensures
            r == self@,
            is_status(self@),
    {
        proof {
            use_type_invariant(self);
        }
        self.code
    }
}

} // verus!
