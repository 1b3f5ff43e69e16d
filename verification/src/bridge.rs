//! The sync bridge: one bridged call as a state machine. The host performs
//! each action and hands back what came of it; every decision is made here.

use crate::codec::encode;
use crate::failure::{FailureReason, ReasonView};
use crate::json::{error_text, object_of, text_of};
use crate::method::Method;
use crate::json::is_well_formed;
use crate::request::{
    applies_headers_of, request_for, OptionsView, RequestDescriptor, RequestView,
};
use crate::response::{
    raw_pairs, response_for, Payload, RawHeader, ResponseDescriptor, ResponseView,
};
use crate::script::{script_for, script_source};
use crate::status::{is_status, StatusCode};
use serde_json::Value;
use vstd::prelude::*;

verus! {

/// Where one bridged call stands.
#[derive(Debug, Clone, Copy, PartialEq, Eq, Structural)]
pub enum CallState {
    /// The script has made the call; nothing has gone out.
    Invoked,
    /// The request is with the transport.
    Dispatched,
    /// The call has a value to return.
    Resolved,
    /// The call has an error to raise.
    Failed,
}

/// What came of a request that was sent.
#[derive(Debug, Clone, PartialEq, Eq)]
pub enum Reply {
    /// The exchange did not complete.
    TransportFailed { cause: String },
    /// The response arrived, but its body could not be read to the end.
    BodyFailed { cause: String },
    /// The response arrived whole.
    Complete { status: StatusCode, headers: Vec<RawHeader>, text: String },
}

/// What the host hands to the bridge.
#[derive(Debug, Clone, PartialEq)]
pub enum Event {
    /// The script called with a target and, maybe, options.
    Start { target: String, options: Option<serde_json::Map<String, Value>> },
    /// The transport is done with the request.
    Reply(Reply),
}

/// What the bridge asks of the host.
#[derive(Debug, Clone, PartialEq)]
pub enum Action {
    /// Send this request, once, and hand back the reply.
    Send(RequestDescriptor),
    /// Evaluate this script source and return its value from the call.
    Evaluate(String),
    /// Raise an error with this reason in the script.
    Raise(FailureReason),
    /// Nothing to do.
    Idle,
}

/// The model of a [`Reply`].
pub enum ReplyView {
    TransportFailed { cause: Seq<char> },
    BodyFailed { cause: Seq<char> },
    Complete { status: int, headers: Seq<(Seq<char>, Option<Seq<char>>)>, text: Seq<char> },
}

/// The model of an [`Event`].
pub enum EventView {
    Start { target: Seq<char>, options: OptionsView },
    Reply(ReplyView),
}

/// The model of an [`Action`].
pub enum ActionView {
    Send(RequestView),
    Evaluate(Seq<char>),
    Raise(ReasonView),
    Idle,
}

impl View for Reply {
    type V = ReplyView;

    open spec fn view(&self) -> ReplyView {
        match self {
            Reply::TransportFailed { cause } => ReplyView::TransportFailed { cause: cause@ },
            Reply::BodyFailed { cause } => ReplyView::BodyFailed { cause: cause@ },
            Reply::Complete { status, headers, text } => ReplyView::Complete {
                status: status@,
                headers: raw_pairs(headers@),
                text: text@,
            },
        }
    }
}

impl View for Event {
    type V = EventView;

    open spec fn view(&self) -> EventView {
        match self {
            Event::Start { target, options } => EventView::Start {
                target: target@,
                options: match options {
                    Some(m) => Some(object_of(*m)),
                    None => None,
                },
            },
            Event::Reply(r) => EventView::Reply(r@),
        }
    }
}

impl View for Action {
    type V = ActionView;

    open spec fn view(&self) -> ActionView {
        match self {
            Action::Send(d) => ActionView::Send(d@),
            Action::Evaluate(s) => ActionView::Evaluate(s@),
            Action::Raise(f) => ActionView::Raise(f@),
            Action::Idle => ActionView::Idle,
        }
    }
}

/// What a call starts with: the request goes out, or the call fails over its
/// method before anything is sent.
pub open spec fn started(target: Seq<char>, options: OptionsView) -> (CallState, ActionView) {
    match request_for(target, options) {
        Ok(r) => (CallState::Dispatched, ActionView::Send(r)),
        Err(f) => (CallState::Failed, ActionView::Raise(f)),
    }
}

/// What a reply comes to: a response, or the reason the call failed. A
/// failure never comes with a response.
pub open spec fn outcome(reply: ReplyView) -> Result<ResponseView, ReasonView> {
    match reply {
        ReplyView::TransportFailed { cause } => Err(ReasonView::Transport { cause }),
        ReplyView::BodyFailed { cause } => Err(ReasonView::BodyRead { cause }),
        ReplyView::Complete { status, headers, text } => Ok(response_for(status, headers, text)),
    }
}

/// How a call ends once its response has been through the encoder: with the
/// script source of the text, or with the reason the encoder gave.
pub open spec fn settled(encoded: Result<Seq<char>, Seq<char>>) -> (CallState, ActionView) {
    match encoded {
        Ok(text) => (CallState::Resolved, ActionView::Evaluate(script_for(text))),
        Err(cause) => (CallState::Failed, ActionView::Raise(ReasonView::Encoding { cause })),
    }
}

/// What the bridge does about an event in a state: the action it asks for,
/// and the state in which the call goes on. An event that does not belong to
/// the state changes nothing.
pub open spec fn stepped(state: CallState, event: EventView) -> (CallState, ActionView) {
    match (state, event) {
        (CallState::Invoked, EventView::Start { target, options }) => started(target, options),
        (CallState::Dispatched, EventView::Reply(reply)) => match outcome(reply) {
            Ok(response) => settled(Ok(text_of(response.json()))),
            Err(f) => (CallState::Failed, ActionView::Raise(f)),
        },
        _ => (state, ActionView::Idle),
    }
}

/// The cause given for a response whose status is no status code.
pub open spec fn bad_status_cause() -> Seq<char> {
    "status code out of range"@
}

/// The reply that a response read to the end stands for: the response itself
/// where its status is a status code, a failed exchange where it is not.
pub open spec fn received(
    code: int,
    headers: Seq<(Seq<char>, Option<Seq<char>>)>,
    text: Seq<char>,
) -> ReplyView {
    if is_status(code) {
        ReplyView::Complete { status: code, headers, text }
    } else {
        ReplyView::TransportFailed { cause: bad_status_cause() }
    }
}

/// A call made with method GET, POST, PUT or DELETE is dispatched, and with
/// that verb exactly; a call that names no method is dispatched with GET.
pub proof fn lemma_supported_method_is_dispatched(
    target: Seq<char>,
    options: OptionsView,
    m: Method,
)
    requires
        crate::request::method_name(options) == Some(m.name()) || (crate::request::method_name(
            options,
        ) is None && m == Method::Get),
    ensures
        stepped(CallState::Invoked, EventView::Start { target, options }).0
            == CallState::Dispatched,
        (stepped(CallState::Invoked, EventView::Start { target, options }).1 matches ActionView::Send(
            r,
        ) && r.method == m && r.target == target),
{
    crate::method::lemma_supported_method_selects_itself(m);
}

/// A call that names a method outside the supported set fails before
/// anything is sent: the answer to its start is an error that names the
/// method as given, the call stands as failed, and no later event makes it
/// send.
pub proof fn lemma_unsupported_method_sends_nothing(
    target: Seq<char>,
    options: OptionsView,
    name: Seq<char>,
)
    requires
        crate::request::method_name(options) == Some(name),
        Method::named(name) is None,
    ensures
        stepped(CallState::Invoked, EventView::Start { target, options }) == (
            CallState::Failed,
            ActionView::Raise(ReasonView::UnsupportedMethod { method: name }),
        ),
        (ReasonView::UnsupportedMethod { method: name }).message() == "Unsupported HTTP method: "@
            + name,
        forall|e: EventView| #[trigger]
            stepped(CallState::Failed, e) == (CallState::Failed, ActionView::Idle),
{
}

/// How far a call has come: not yet sent, sent, or ended.
pub open spec fn progress(state: CallState) -> nat {
    match state {
        CallState::Invoked => 0,
        CallState::Dispatched => 1,
        CallState::Resolved => 2,
        CallState::Failed => 2,
    }
}

/// One attempt for each call, and no way back: a call never returns to an
/// earlier state, a request is sent only in answer to the start of a call
/// that has sent none, and a call that has ended answers every event with
/// nothing.
pub proof fn lemma_single_attempt(state: CallState, event: EventView)
    ensures
        progress(state) <= progress(stepped(state, event).0),
        stepped(state, event).1 is Send ==> state == CallState::Invoked && stepped(
            state,
            event,
        ).0 == CallState::Dispatched,
        progress(state) == 2 ==> stepped(state, event) == (state, ActionView::Idle),
        stepped(state, event).0 == CallState::Invoked ==> stepped(state, event).1
            == ActionView::Idle,
{
}

/// A call ends in exactly one way: a value to evaluate comes with the
/// resolved state and an error to raise with the failed one, never a
/// response together with a failure. A reply with a response always
/// resolves the call.
pub proof fn lemma_outcome_is_one_of_two(state: CallState, event: EventView)
    ensures
        stepped(state, event).1 is Evaluate <==> (stepped(state, event).0 == CallState::Resolved
            && state != CallState::Resolved),
        stepped(state, event).1 is Raise <==> (stepped(state, event).0 == CallState::Failed
            && state != CallState::Failed),
        stepped(state, event).1 is Evaluate <==> (state == CallState::Dispatched && (
        event matches EventView::Reply(reply) && outcome(reply) is Ok)),
{
}

/// A failed exchange raises the cause in the words for its kind: a transport
/// failure as "HTTP request failed: " and the cause, a body that could not be
/// read as "Failed to read response body: " and the cause.
pub proof fn lemma_failed_exchange_is_raised(reply: ReplyView)
    requires
        !(reply is Complete),
    ensures
        stepped(CallState::Dispatched, EventView::Reply(reply)).0 == CallState::Failed,
        reply matches ReplyView::TransportFailed { cause } ==> (stepped(
            CallState::Dispatched,
            EventView::Reply(reply),
        ).1 == ActionView::Raise(ReasonView::Transport { cause }) && (ReasonView::Transport {
            cause,
        }).message() == "HTTP request failed: "@ + cause),
        reply matches ReplyView::BodyFailed { cause } ==> (stepped(
            CallState::Dispatched,
            EventView::Reply(reply),
        ).1 == ActionView::Raise(ReasonView::BodyRead { cause }) && (ReasonView::BodyRead {
            cause,
        }).message() == "Failed to read response body: "@ + cause),
{
}

impl Reply {
    /// The reply for a response that was read to the end. A status from 100
    /// to 599 gives the response; any other number is no status code, and
    /// the exchange counts as failed.
    pub fn received(code: u16, headers: Vec<RawHeader>, text: String) -> (r: Reply)
        ensures
            r@ == received(code as int, raw_pairs(headers@), text@),
    {
        match StatusCode::new(code) {
            Some(status) => Reply::Complete { status, headers, text },
            None => Reply::TransportFailed { cause: "status code out of range".to_owned() },
        }
    }
}

/// Starts a call: builds the request and asks for it to be sent, or fails
/// the call over its method. A request that goes out carries every
/// string-valued header the options give, and no other.
pub fn start(target: String, options: Option<&serde_json::Map<String, Value>>) -> (r: (
    CallState,
    Action,
))
    ensures
        (r.0, r.1@) == started(target@, crate::request::options_view(options)),
        r.1 matches Action::Send(d) ==> applies_headers_of(
            d@.headers,
            crate::request::options_view(options),
        ),
{
    match RequestDescriptor::from_options(target, options) {
        Ok(d) => (CallState::Dispatched, Action::Send(d)),
        Err(e) => (CallState::Failed, Action::Raise(e)),
    }
}

/// Turns a reply into the outcome of the call: the assembled response, or
/// the failure with the cause as the transport worded it. The body of the
/// response is kept as text exactly where the payload is not well-formed
/// interchange text, and is that payload unchanged.
pub fn complete(reply: Reply) -> (r: Result<ResponseDescriptor, FailureReason>)
    ensures
        match outcome(reply@) {
            Ok(model) => r matches Ok(d) && d@ == model && is_status(model.status),
            Err(f) => r matches Err(e) && e@ == f,
        },
        match (reply@, r) {
            (ReplyView::Complete { text, .. }, Ok(d)) => {
                &&& d.body is Text <==> !is_well_formed(text)
                &&& d.body matches Payload::Text(s) ==> s@ == text
            },
            _ => true,
        },
{
    match reply {
        Reply::TransportFailed { cause } => Err(FailureReason::Transport { cause }),
        Reply::BodyFailed { cause } => Err(FailureReason::BodyRead { cause }),
        Reply::Complete { status, headers, text } => Ok(
            ResponseDescriptor::assemble(status, headers, text),
        ),
    }
}

/// Ends a call whose response has been through the encoder: the text goes
/// to the script as source to evaluate, a refusal as an error to raise.
pub fn settle(encoded: Result<String, String>) -> (r: (CallState, Action))
    ensures
        (r.0, r.1@) == settled(
            match encoded {
                Ok(text) => Ok(text@),
                Err(cause) => Err(cause@),
            },
        ),
{
    match encoded {
        Ok(text) => (CallState::Resolved, Action::Evaluate(script_source(text.as_str()))),
        Err(cause) => (CallState::Failed, Action::Raise(FailureReason::Encoding { cause })),
    }
}

/// One step of a call: what to do about an event, and where the call stands
/// afterwards. The start of a call sends its request or fails it; the reply
/// to a request resolves the call with the script source of the encoded
/// response, or fails it with the cause; any other event changes nothing.
pub fn step(state: CallState, event: Event) -> (r: (CallState, Action))
    ensures
        (r.0, r.1@) == stepped(state, event@),
        match (event@, r.1) {
            (EventView::Start { options, .. }, Action::Send(d)) => applies_headers_of(
                d@.headers,
                options,
            ),
            _ => true,
        },
{
    match state {
        CallState::Invoked => match event {
            Event::Start { target, options } => start(target, options.as_ref()),
            Event::Reply(_) => (state, Action::Idle),
        },
        CallState::Dispatched => match event {
            Event::Reply(reply) => match complete(reply) {
                Ok(d) => match encode(&d) {
                    Ok(text) => settle(Ok(text)),
                    Err(e) => settle(Err(error_text(&e))),
                },
                Err(e) => (CallState::Failed, Action::Raise(e)),
            },
            Event::Start { .. } => (state, Action::Idle),
        },
        CallState::Resolved => (state, Action::Idle),
        CallState::Failed => (state, Action::Idle),
    }
}

} // verus!
