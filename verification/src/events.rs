//! Events that the daemon pushes, and the envelopes of its protocol.
use vstd::prelude::*;
use vstd::string::*;

use crate::bootstrap::{generate_nonce, nonce_text};
use crate::types::{DaemonEvent, DaemonEventKind, ErrorDetail, JsonRpcNotification, JsonRpcRequest,
    JsonRpcResponse};

verus! {

/// Numbers the events in the order in which they are sent.
pub struct EventBus {
    pub last: u64,
}

impl EventBus {
    pub fn new() -> (r: Self)
        ensures
            r.last == 0,
    {
        EventBus { last: 0 }
    }

    /// The number of the last event, zero before the first.
    pub fn current_seq(&self) -> (r: u64)
        ensures
            r == self.last,
    {
        self.last
    }

    /// Gives an event the next number.
    pub fn emit(&mut self, event: DaemonEvent) -> (r: DaemonEvent)
        requires
            old(self).last < u64::MAX,
        ensures
            final(self).last == old(self).last + 1,
            r == (DaemonEvent { seq: final(self).last, ..event }),
    {
        self.last = self.last + 1;
        DaemonEvent { seq: self.last, kind: event.kind, payload: event.payload }
    }
}

/// The method under which an event is pushed.
pub open spec fn push_method(kind: DaemonEventKind) -> Seq<char> {
    match kind {
        DaemonEventKind::InboundMessage => "push.inbound_message"@,
        DaemonEventKind::InboundMention => "push.inbound_mention"@,
        DaemonEventKind::ConnectionStateChanged => "push.connection_state_changed"@,
        DaemonEventKind::Gap => "push.gap"@,
    }
}

/// The notification of an event whose JSON is `params`.
pub fn daemon_event_to_notification(event: &DaemonEvent, params: String) -> (r: JsonRpcNotification)
    ensures
        r.jsonrpc@ == "2.0"@,
        r.method@ == push_method(event.kind),
        r.params == params,
{
    let method = match event.kind {
        DaemonEventKind::InboundMessage => "push.inbound_message",
        DaemonEventKind::InboundMention => "push.inbound_mention",
        DaemonEventKind::ConnectionStateChanged => "push.connection_state_changed",
        DaemonEventKind::Gap => "push.gap",
    };
    JsonRpcNotification { jsonrpc: "2.0".to_owned(), method: method.to_owned(), params }
}

/// A request under an id of its own.
pub fn rpc_request(method: &str, params: String) -> (r: JsonRpcRequest)
    ensures
        r.jsonrpc@ == "2.0"@,
        nonce_text(r.id@),
        r.method@ == method@,
        r.params == params,
{
    JsonRpcRequest {
        jsonrpc: "2.0".to_owned(),
        id: generate_nonce(),
        method: method.to_owned(),
        params,
    }
}

/// The answer to a request.
pub fn rpc_result(id: String, result: String) -> (r: JsonRpcResponse)
    ensures
        r.jsonrpc@ == "2.0"@,
        r.id == id,
        r.result == Some(result),
        r.error is None,
{
    JsonRpcResponse { jsonrpc: "2.0".to_owned(), id, result: Some(result), error: None }
}

/// The refusal of a request.
pub fn rpc_error(id: String, code: i64, message: &str) -> (r: JsonRpcResponse)
    ensures
        r.jsonrpc@ == "2.0"@,
        r.id == id,
        r.result is None,
        r.error matches Some(e) && e.code == code && e.message@ == message@,
{
    JsonRpcResponse {
        jsonrpc: "2.0".to_owned(),
        id,
        result: None,
        error: Some(ErrorDetail { code, message: message.to_owned() }),
    }
}

/// Each kind of event goes out under its own name.
pub proof fn events_go_out_under_their_name(kind: DaemonEventKind)
    ensures
        kind is InboundMessage ==> push_method(kind) == "push.inbound_message"@,
        kind is InboundMention ==> push_method(kind) == "push.inbound_mention"@,
        kind is ConnectionStateChanged ==> push_method(kind) == "push.connection_state_changed"@,
        kind is Gap ==> push_method(kind) == "push.gap"@,
{
}

/// Requests, results and errors carry what they are given.
pub proof fn messages_carry_what_they_are_given(
    event: &DaemonEvent,
    params: String,
    n: JsonRpcNotification,
    id: String,
    result: String,
    ok: JsonRpcResponse,
    code: i64,
    message: &str,
    err: JsonRpcResponse,
)
    requires
        call_ensures(daemon_event_to_notification, (event, params), n),
        call_ensures(rpc_result, (id, result), ok),
        call_ensures(rpc_error, (id, code, message), err),
    ensures
        n.method@ == push_method(event.kind) && n.params == params && n.jsonrpc@ == "2.0"@,
        ok.id == id && ok.result == Some(result) && ok.error is None && ok.jsonrpc@ == "2.0"@,
        err.id == id && err.result is None && err.error is Some && err.error->0.code == code
            && err.error->0.message@ == message@ && err.jsonrpc@ == "2.0"@,
{
}

/// Events are numbered one after another from 1, and are otherwise what they were.
pub proof fn events_are_numbered(
    bus: &mut EventBus,
    event: DaemonEvent,
    r: DaemonEvent,
    fresh: EventBus,
    last: u64,
)
    requires
        call_ensures(EventBus::new, (), fresh),
        call_ensures(EventBus::current_seq, (&fresh,), last),
        old(bus).last < u64::MAX,
        call_ensures(EventBus::emit, (bus, event), r),
    ensures
        last == 0,
        r.seq == old(bus).last + 1,
        final(bus).last == r.seq,
        r.kind == event.kind && r.payload == event.payload,
{
}

/// A request asks for its method with its parameters.
pub proof fn requests_ask_for_their_method(method: &str, params: String, r: JsonRpcRequest)
    requires
        call_ensures(rpc_request, (method, params), r),
    ensures
        r.method@ == method@ && r.params == params && r.jsonrpc@ == "2.0"@ && r.id@.len() == 36,
{
}

} // verus!
