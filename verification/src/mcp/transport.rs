//! Request identifiers, the table of requests that await a reply, and the
//! requests a client sends.

use super::config::{TransportConfig, TransportType};
use super::json::{json_text, optional_view, Json, JsonValue, NumericValue, ObjectBuilder};
use super::protocol::{line_message, message_doc, optional_message};
use super::protocol::{McpMessage, Request, RequestValue, Response};
use std::collections::HashMap;
use vstd::prelude::*;
use vstd::string::StringExecFns;

verus! {

/// Whether a request with this `id` awaits its reply.
pub open spec fn is_pending<S>(pending: Map<u64, S>, id: u64) -> bool {
    pending.contains_key(id)
}

/// The reply slot registered for `id`.
pub open spec fn slot_of<S>(pending: Map<u64, S>, id: u64) -> Option<S> {
    if pending.contains_key(id) {
        Some(pending[id])
    } else {
        None
    }
}

/// The table after `slot` is registered for `id`, in place of a slot that
/// `id` had before.
pub open spec fn registered<S>(pending: Map<u64, S>, id: u64, slot: S) -> Map<u64, S> {
    pending.insert(id, slot)
}

/// The table after the entry for `id` is taken out.
pub open spec fn released<S>(pending: Map<u64, S>, id: u64) -> Map<u64, S> {
    pending.remove(id)
}

/// The slot that a response with this `id` is for, if any.
pub open spec fn addressee<S>(pending: Map<u64, S>, id: JsonValue) -> Option<S> {
    match id.unsigned() {
        Some(n) => slot_of(pending, n),
        None => None,
    }
}

/// The table after a response with this `id` was routed.
pub open spec fn routed<S>(pending: Map<u64, S>, id: JsonValue) -> Map<u64, S> {
    match id.unsigned() {
        Some(n) => released(pending, n),
        None => pending,
    }
}

/// Whether a list of entries is a table handed over whole: every entry of
/// the list is one of the table, every entry of the table is in the list,
/// and no identifier is listed twice.
pub open spec fn hands_over<S>(entries: Seq<(u64, S)>, pending: Map<u64, S>) -> bool {
    &&& forall|i: int|
        0 <= i < entries.len() ==> pending.contains_key((#[trigger] entries[i]).0)
            && pending[entries[i].0] == entries[i].1
    &&& forall|id: u64| #[trigger]
        pending.contains_key(id) ==> exists|i: int|
            0 <= i < entries.len() && #[trigger] entries[i] == (id, pending[id])
    &&& forall|i: int, j: int|
        0 <= i < entries.len() && 0 <= j < entries.len() && i != j ==> (#[trigger] entries[i]).0
            != (#[trigger] entries[j]).0
}

/// Successive calls of `next_id`: `upcoming[k]` is the router's counter
/// before call `k`, which hands out `ids[k]`.
pub open spec fn mint_steps(upcoming: Seq<u64>, ids: Seq<u64>) -> bool {
    &&& upcoming.len() == ids.len() + 1
    &&& upcoming[0] >= 1
    &&& forall|k: int|
        0 <= k < ids.len() ==> ids[k] == #[trigger] upcoming[k] && upcoming[k + 1] == upcoming[k]
            + 1
}

/// Identifiers handed out by successive calls are at least 1 and strictly
/// increasing, so no two requests share one.
pub proof fn lemma_ids_strictly_increase(upcoming: Seq<u64>, ids: Seq<u64>, i: int, j: int)
    requires
        mint_steps(upcoming, ids),
        0 <= i < j < ids.len(),
    ensures
        1 <= ids[i] < ids[j],
    decreases j - i,
{
    lemma_counter_grows(upcoming, ids, i);
    if i + 1 < j {
        lemma_ids_strictly_increase(upcoming, ids, i + 1, j);
        assert(upcoming[i + 1] == upcoming[i] + 1);
    } else {
        assert(upcoming[i + 1] == upcoming[i] + 1);
    }
}

/// The counter never falls below its first value.
pub proof fn lemma_counter_grows(upcoming: Seq<u64>, ids: Seq<u64>, k: int)
    requires
        mint_steps(upcoming, ids),
        0 <= k <= ids.len(),
    ensures
        upcoming[k] >= upcoming[0] + k,
    decreases k,
{
    if k > 0 {
        lemma_counter_grows(upcoming, ids, k - 1);
        assert(upcoming[k - 1 + 1] == upcoming[k - 1] + 1);
    }
}

/// Replies are matched to callers by identifier, not by arrival order:
/// with two requests registered one after the other, the reply to the
/// second reaches the second caller's slot and the later reply to the first
/// still reaches the first caller's.
pub proof fn lemma_replies_match_by_id<S>(
    pending: Map<u64, S>,
    first: u64,
    first_slot: S,
    second: u64,
    second_slot: S,
)
    requires
        first != second,
    ensures
        ({
            let table = registered(registered(pending, first, first_slot), second, second_slot);
            &&& slot_of(table, second) == Some(second_slot)
            &&& slot_of(released(table, second), first) == Some(first_slot)
            &&& slot_of(table, first) == Some(first_slot)
            &&& slot_of(released(table, first), second) == Some(second_slot)
        }),
{
}

/// Closing wakes every waiter: a table that is handed over whole holds,
/// for each request that was pending, its identifier with the slot
/// registered for it, so that none is left waiting.
pub proof fn lemma_drain_reaches_every_waiter<S>(
    entries: Seq<(u64, S)>,
    pending: Map<u64, S>,
    id: u64,
)
    requires
        hands_over(entries, pending),
        is_pending(pending, id),
    ensures
        exists|i: int|
            0 <= i < entries.len() && (#[trigger] entries[i]).0 == id && Some(entries[i].1)
                == slot_of(pending, id),
{
    let i = choose|i: int| 0 <= i < entries.len() && #[trigger] entries[i] == (id, pending[id]);
    assert(entries[i].0 == id);
}

/// A call that gave up waiting leaves nothing behind: once its entry is
/// released, the identifier is no longer pending, a late response for it
/// finds no slot and changes nothing, and every other pending request
/// keeps its slot.
pub proof fn lemma_late_response_is_discarded<S>(pending: Map<u64, S>, id: u64, other: u64)
    requires
        other != id,
    ensures
        ({
            let after = released(pending, id);
            let late = JsonValue::Number(NumericValue::PosInt(id));
            &&& !is_pending(after, id)
            &&& addressee(after, late).is_none()
            &&& routed(after, late) == after
            &&& slot_of(after, other) == slot_of(pending, other)
        }),
{
    let after = released(pending, id);
    assert(after.remove(id) =~= after);
}

/// `HashMap::into_iter`, gathered: every pair that the map held, each
/// once, in no particular order.
#[verifier::external_body]
fn take_all<S>(map: HashMap<u64, S>) -> (entries: Vec<(u64, S)>)
    ensures
        hands_over(entries@, map@),
{
    map.into_iter().collect()
}

/// Correlates responses with the requests that produced them. It mints the
/// request identifiers and keeps, for each request still waiting, the reply
/// slot that its caller handed in.
#[derive(Debug)]
pub struct MessageRouter<S> {
    pending_requests: HashMap<u64, S>,
    next_id: u64,
}

impl<S> MessageRouter<S> {
    /// The requests that await a reply, each with its slot.
    pub closed spec fn pending(&self) -> Map<u64, S> {
        self.pending_requests@
    }

    /// The identifier that `next_id` hands out next.
    pub closed spec fn upcoming(&self) -> u64 {
        self.next_id
    }

    /// Zero is never handed out.
    pub open spec fn wf(&self) -> bool {
        self.upcoming() >= 1
    }

    /// A router with nothing pending, whose first identifier is 1.
    pub fn new() -> (r: MessageRouter<S>)
        ensures
            r.wf(),
            r.pending() == Map::<u64, S>::empty(),
            r.upcoming() == 1,
    {
        MessageRouter { pending_requests: HashMap::new(), next_id: 1 }
    }

    /// Whether another identifier can be handed out.
    pub fn can_mint(&self) -> (r: bool)
        ensures
            r == (self.upcoming() < u64::MAX),
    {
        self.next_id < u64::MAX
    }

    /// Hands out the next identifier. Identifiers start at 1 and each is
    /// one more than the one before.
    pub fn next_id(&mut self) -> (id: u64)
        requires
            old(self).wf(),
            old(self).upcoming() < u64::MAX,
        ensures
            final(self).wf(),
            id == old(self).upcoming(),
            id >= 1,
            final(self).upcoming() == id + 1,
            final(self).pending() == old(self).pending(),
    {
        let id = self.next_id;
        self.next_id = id + 1;
        id
    }

    /// The number of requests that await a reply.
    pub fn pending_count(&self) -> (n: usize)
        ensures
            n == self.pending().len(),
    {
        self.pending_requests.len()
    }

    /// Whether a request with this identifier awaits its reply.
    pub fn is_pending(&self, id: u64) -> (r: bool)
        ensures
            r == is_pending(self.pending(), id),
    {
        self.pending_requests.contains_key(&id)
    }

    /// Registers `slot` as the place where the reply to request `id` is
    /// awaited. Where `id` was pending already its earlier slot is handed
    /// back, so that at most one slot exists per identifier.
    pub fn register_request(&mut self, id: u64, slot: S) -> (displaced: Option<S>)
        requires
            old(self).wf(),
        ensures
            final(self).wf(),
            final(self).upcoming() == old(self).upcoming(),
            final(self).pending() == registered(old(self).pending(), id, slot),
            displaced == slot_of(old(self).pending(), id),
    {
        self.pending_requests.insert(id, slot)
    }

    /// Takes the entry for `id` out of the table and hands its slot over;
    /// `None`, and no change, where `id` is not pending.
    pub fn release(&mut self, id: u64) -> (slot: Option<S>)
        requires
            old(self).wf(),
        ensures
            final(self).wf(),
            final(self).upcoming() == old(self).upcoming(),
            final(self).pending() == released(old(self).pending(), id),
            slot == slot_of(old(self).pending(), id),
            !is_pending(final(self).pending(), id),
    {
        self.pending_requests.remove(&id)
    }

    /// Routes a response: where its `id` is a number that is pending, the
    /// entry is taken out and its slot is handed over together with the
    /// response, to be fulfilled once. A response whose `id` is not a
    /// non-negative integer, or is not pending (a late or repeated
    /// response), is discarded and the table stays as it is.
    pub fn handle_response(&mut self, response: Response) -> (delivery: Option<(S, Response)>)
        requires
            old(self).wf(),
        ensures
            final(self).wf(),
            final(self).upcoming() == old(self).upcoming(),
            final(self).pending() == routed(old(self).pending(), response.id@),
            delivery == match addressee(old(self).pending(), response.id@) {
                Some(slot) => Some((slot, response)),
                None => None,
            },
    {
        match response.id.as_u64() {
            Some(id) => match self.release(id) {
                Some(slot) => Some((slot, response)),
                None => {
                    assert(self.pending() =~= old(self).pending());
                    None
                },
            },
            None => None,
        }
    }

    /// Empties the table and hands over every entry, so that each waiter
    /// can be told that the connection is gone.
    pub fn drain(&mut self) -> (entries: Vec<(u64, S)>)
        requires
            old(self).wf(),
        ensures
            final(self).wf(),
            final(self).upcoming() == old(self).upcoming(),
            final(self).pending() == Map::<u64, S>::empty(),
            hands_over(entries@, old(self).pending()),
    {
        let mut held: HashMap<u64, S> = HashMap::new();
        std::mem::swap(&mut held, &mut self.pending_requests);
        take_all(held)
    }
}

/// Why a transport operation failed.
#[derive(Debug, Clone, Copy, PartialEq, Eq, Structural)]
pub enum TransportError {
    /// The transport is not connected.
    NotConnected,
    /// No message arrived within the transport's timeout.
    Timeout,
    /// The other side is gone.
    ChannelClosed,
    /// The child process could not be started.
    SpawnFailed,
    /// The message could not be handed to the writer.
    SendFailed,
    /// Server-sent events are not available yet.
    SseNotImplemented,
    /// Plain HTTP is not available yet.
    HttpNotImplemented,
}

impl TransportError {
    /// The error in words.
    pub open spec fn spec_message(self) -> Seq<char> {
        match self {
            TransportError::NotConnected => "Transport not connected"@,
            TransportError::Timeout => "Timeout waiting for message"@,
            TransportError::ChannelClosed => "Channel closed"@,
            TransportError::SpawnFailed => "Failed to start MCP server process"@,
            TransportError::SendFailed => "Failed to send message"@,
            TransportError::SseNotImplemented => "SSE transport not yet implemented"@,
            TransportError::HttpNotImplemented => "HTTP transport not yet implemented"@,
        }
    }

    /// The error in words.
    pub fn message(&self) -> (r: String)
        ensures
            r@ == self.spec_message(),
    {
        match self {
            TransportError::NotConnected => "Transport not connected".to_string(),
            TransportError::Timeout => "Timeout waiting for message".to_string(),
            TransportError::ChannelClosed => "Channel closed".to_string(),
            TransportError::SpawnFailed => "Failed to start MCP server process".to_string(),
            TransportError::SendFailed => "Failed to send message".to_string(),
            TransportError::SseNotImplemented => "SSE transport not yet implemented".to_string(),
            TransportError::HttpNotImplemented => "HTTP transport not yet implemented".to_string(),
        }
    }
}

/// The state of a transport over the standard streams of a child process.
/// The process and its pipes are held by whoever drives the transport; this
/// is what decides whether a send or a receive may go ahead.
#[derive(Debug)]
pub struct StdioTransport {
    connected: bool,
    timeout_secs: u64,
}

impl StdioTransport {
    /// Whether the child process is up and its streams are wired.
    pub closed spec fn connected(&self) -> bool {
        self.connected
    }

    /// How long a receive waits, in seconds.
    pub closed spec fn timeout(&self) -> u64 {
        self.timeout_secs
    }

    /// A transport that is not connected yet. It waits for the configured
    /// timeout, 30 seconds where none is configured.
    pub fn new(config: TransportConfig) -> (r: Result<StdioTransport, TransportError>)
        ensures
            r matches Ok(t) && !t.connected() && t.timeout() == match config.options.timeout {
                Some(secs) => secs,
                None => 30,
            },
    {
        let timeout_secs = match config.options.timeout {
            Some(secs) => secs,
            None => 30,
        };
        Ok(StdioTransport { connected: false, timeout_secs })
    }

    /// How long a receive waits, in seconds.
    pub fn timeout_secs(&self) -> (r: u64)
        ensures
            r == self.timeout(),
    {
        self.timeout_secs
    }

    /// Records that the child process was started and its streams wired.
    pub fn mark_connected(&mut self)
        ensures
            final(self).connected(),
            final(self).timeout() == old(self).timeout(),
    {
        self.connected = true;
    }

    /// Whether the transport is connected.
    pub fn is_connected(&self) -> (r: bool)
        ensures
            r == self.connected(),
    {
        self.connected
    }

    /// Prepares a message for the writer: its JSON on one line, closed by a
    /// line feed. It fails, and fails fast, exactly where the transport is
    /// not connected.
    pub fn send(&self, message: &McpMessage) -> (r: Result<String, TransportError>)
        ensures
            match r {
                Ok(line) => self.connected() && json_text(message_doc(message@)) == Some(
                    line@.drop_last(),
                ) && line@.len() > 0 && line@.last() == '\n',
                Err(e) => !self.connected() && e == TransportError::NotConnected,
            },
    {
        if !self.connected {
            return Err(TransportError::NotConnected);
        }
        match message.encode() {
            Some(text) => {
                let mut line = text;
                let ghost body = line@;
                line.append("\n");
                proof {
                    reveal_strlit("\n");
                    assert(line@.drop_last() =~= body);
                }
                Ok(line)
            },
            None => Err(TransportError::SendFailed),
        }
    }

    /// Reads what the reader got from the child: the message on the line,
    /// or `None` for a line that holds none, which is dropped without harm
    /// to the connection.
    pub fn receive(&self, line: &str) -> (r: Result<Option<McpMessage>, TransportError>)
        ensures
            match r {
                Ok(m) => self.connected() && optional_message(m) == line_message(line@),
                Err(e) => !self.connected() && e == TransportError::NotConnected,
            },
    {
        if !self.connected {
            return Err(TransportError::NotConnected);
        }
        Ok(McpMessage::decode(line))
    }

    /// Records that the child's output has ended: the child is gone, and
    /// from then on the transport is not connected, so that every send and
    /// receive fails at once.
    pub fn end_of_stream(&mut self)
        ensures
            !final(self).connected(),
            final(self).timeout() == old(self).timeout(),
    {
        self.connected = false;
    }

    /// Closes the transport. Closing again changes nothing.
    pub fn close(&mut self) -> (r: Result<(), TransportError>)
        ensures
            r is Ok,
            !final(self).connected(),
            final(self).timeout() == old(self).timeout(),
    {
        self.connected = false;
        Ok(())
    }
}

/// Makes the transport that a configuration asks for.
pub struct TransportFactory;

impl TransportFactory {
    /// A transport over standard streams; the other kinds do not exist yet.
    pub fn create(config: TransportConfig) -> (r: Result<StdioTransport, TransportError>)
        ensures
            match config.transport_type {
                TransportType::Stdio => r matches Ok(t) && !t.connected() && t.timeout()
                    == match config.options.timeout {
                    Some(secs) => secs,
                    None => 30,
                },
                TransportType::Sse => r matches Err(e) && e == TransportError::SseNotImplemented,
                TransportType::Http => r matches Err(e) && e == TransportError::HttpNotImplemented,
            },
    {
        match config.transport_type {
            TransportType::Stdio => StdioTransport::new(config),
            TransportType::Sse => Err(TransportError::SseNotImplemented),
            TransportType::Http => Err(TransportError::HttpNotImplemented),
        }
    }
}

/// The identifier `id` as it stands in a message.
pub open spec fn id_doc(id: u64) -> JsonValue {
    JsonValue::Number(NumericValue::PosInt(id))
}

/// The parameters of a `tools/call` request.
pub open spec fn call_params(name: Seq<char>, arguments: Option<JsonValue>) -> JsonValue {
    match arguments {
        Some(a) => JsonValue::Object(seq![("name"@, JsonValue::Text(name)), ("arguments"@, a)]),
        None => JsonValue::Object(seq![("name"@, JsonValue::Text(name))]),
    }
}

/// Builds the requests that a client sends.
pub struct RequestBuilder;

impl RequestBuilder {
    /// A `tools/list` request.
    pub fn list_tools(id: u64) -> (r: Request)
        ensures
            r@ == (RequestValue { id: id_doc(id), method: "tools/list"@, params: None }),
    {
        Request { id: Json::unsigned(id), method: "tools/list".to_string(), params: None }
    }

    /// A `tools/call` request for the tool `name`; `arguments` is left out
    /// where there are none.
    pub fn call_tool(id: u64, name: &str, arguments: Option<Json>) -> (r: Request)
        ensures
            r@ == (RequestValue {
                id: id_doc(id),
                method: "tools/call"@,
                params: Some(call_params(name@, optional_view(arguments))),
            }),
    {
        let mut params = ObjectBuilder::new();
        params.put("name", Json::text(name));
        match arguments {
            Some(a) => {
                params.put("arguments", a);
            },
            None => {},
        }
        assert(params@ =~= call_params(name@, optional_view(arguments))->Object_0);
        Request {
            id: Json::unsigned(id),
            method: "tools/call".to_string(),
            params: Some(params.build()),
        }
    }

    /// A `resources/list` request.
    pub fn list_resources(id: u64) -> (r: Request)
        ensures
            r@ == (RequestValue { id: id_doc(id), method: "resources/list"@, params: None }),
    {
        Request { id: Json::unsigned(id), method: "resources/list".to_string(), params: None }
    }

    /// A `resources/read` request for the resource at `uri`.
    pub fn read_resource(id: u64, uri: &str) -> (r: Request)
        ensures
            r@ == (RequestValue {
                id: id_doc(id),
                method: "resources/read"@,
                params: Some(JsonValue::Object(seq![("uri"@, JsonValue::Text(uri@))])),
            }),
    {
        let mut params = ObjectBuilder::new();
        params.put("uri", Json::text(uri));
        assert(params@ =~= seq![("uri"@, JsonValue::Text(uri@))]);
        Request {
            id: Json::unsigned(id),
            method: "resources/read".to_string(),
            params: Some(params.build()),
        }
    }

    /// An `initialize` request that carries the client's identity and
    /// capabilities.
    pub fn initialize(id: u64, client_info: Json) -> (r: Request)
        ensures
            r@ == (RequestValue {
                id: id_doc(id),
                method: "initialize"@,
                params: Some(client_info@),
            }),
    {
        Request {
            id: Json::unsigned(id),
            method: "initialize".to_string(),
            params: Some(client_info),
        }
    }
}

} // verus!
