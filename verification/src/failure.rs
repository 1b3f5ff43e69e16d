//! Why a bridged call failed, and the words in which the script is told.

use crate::text::joined;
use vstd::prelude::*;

verus! {

/// The reason a bridged call failed. Every failure inside the bridge ends as
/// one of these; the script sees its [`message`](FailureReason::message).
#[derive(Debug, Clone, PartialEq, Eq)]
pub enum FailureReason {
    /// The options named a method that is none of GET, POST, PUT, DELETE.
    UnsupportedMethod { method: String },
    /// The transport could not complete the exchange.
    Transport { cause: String },
    /// The response arrived but its body could not be read to the end.
    BodyRead { cause: String },
    /// The response could not be written as interchange text.
    Encoding { cause: String },
}

/// The model of a [`FailureReason`].
pub enum ReasonView {
    UnsupportedMethod { method: Seq<char> },
    Transport { cause: Seq<char> },
    BodyRead { cause: Seq<char> },
    Encoding { cause: Seq<char> },
}

impl ReasonView {
    /// The text that stands before the detail in the message.
    pub open spec fn prefix(self) -> Seq<char> {
        match self {
            ReasonView::UnsupportedMethod { .. } => "Unsupported HTTP method: "@,
            ReasonView::Transport { .. } => "HTTP request failed: "@,
            ReasonView::BodyRead { .. } => "Failed to read response body: "@,
            ReasonView::Encoding { .. } => ""@,
        }
    }

    /// The detail the message ends with: the offending method, or the cause
    /// as the collaborator worded it.
    pub open spec fn detail(self) -> Seq<char> {
        match self {
            ReasonView::UnsupportedMethod { method } => method,
            ReasonView::Transport { cause } => cause,
            ReasonView::BodyRead { cause } => cause,
            ReasonView::Encoding { cause } => cause,
        }
    }

    /// The human-readable message: the prefix followed by the detail.
    pub open spec fn message(self) -> Seq<char> {
        self.prefix() + self.detail()
    }
}

impl View for FailureReason {
    type V = ReasonView;

    open spec fn view(&self) -> ReasonView {
        match self {
            FailureReason::UnsupportedMethod { method } => ReasonView::UnsupportedMethod {
                method: method@,
            },
            FailureReason::Transport { cause } => ReasonView::Transport { cause: cause@ },
            FailureReason::BodyRead { cause } => ReasonView::BodyRead { cause: cause@ },
            FailureReason::Encoding { cause } => ReasonView::Encoding { cause: cause@ },
        }
    }
}

impl FailureReason {
    /// The message to raise in the script.
    pub fn message(&self) -> (r: String)
        ensures
            r@ == self@.message(),
    {
        match self {
            FailureReason::UnsupportedMethod { method } => joined(
                "Unsupported HTTP method: ",
                method.as_str(),
            ),
            FailureReason::Transport { cause } => joined("HTTP request failed: ", cause.as_str()),
            FailureReason::BodyRead { cause } => joined(
                "Failed to read response body: ",
                cause.as_str(),
            ),
            FailureReason::Encoding { cause } => joined("", cause.as_str()),
        }
    }
}

/// The message of every failure ends with its detail, so a failure over an
/// unsupported method names that method, and one from the transport carries
/// the cause.
pub proof fn lemma_message_carries_detail(f: ReasonView)
    ensures
        f.message().len() == f.prefix().len() + f.detail().len(),
        f.message().subrange(f.prefix().len() as int, f.message().len() as int) == f.detail(),
        f.message().subrange(0, f.prefix().len() as int) == f.prefix(),
{
}

} // verus!
