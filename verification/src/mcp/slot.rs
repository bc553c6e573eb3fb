//! Reply slots that are one-shot channels: the sending half waits in the
//! router, the receiving half is awaited by the caller.

use super::client::{Dispatch, McpClient};
use super::protocol::{McpMessage, Notification, Request, Response};
use super::transport::{addressee, registered, routed, MessageRouter};
use tokio::sync::oneshot::{Receiver, Sender};
use vstd::prelude::*;

verus! {

#[verifier::external_type_specification]
#[verifier::external_body]
#[verifier::reject_recursive_types(T)]
pub struct ExSender<T>(Sender<T>);

#[verifier::external_type_specification]
#[verifier::external_body]
#[verifier::reject_recursive_types(T)]
pub struct ExReceiver<T>(Receiver<T>);

#[verifier::external_type_specification]
#[verifier::external_body]
pub struct ExRecvError(tokio::sync::oneshot::error::RecvError);

/// Whether the two are the halves of one channel: what is sent on the
/// first is what the second yields.
pub uninterp spec fn same_channel(slot: Sender<Response>, waiting: Receiver<Response>) -> bool;

/// `tokio::sync::oneshot::channel`: the sending and the receiving half of
/// one fresh channel that carries one response.
#[verifier::external_body]
fn channel() -> (halves: (Sender<Response>, Receiver<Response>))
    ensures
        same_channel(halves.0, halves.1),
{
    tokio::sync::oneshot::channel()
}

/// `tokio::sync::oneshot::Sender::send`: hands the response to the
/// receiving half, and gives it back where that half is gone. Whether it is
/// gone is not known beforehand.
#[verifier::external_body]
fn send(slot: Sender<Response>, response: Response) -> (r: Result<(), Response>)
    ensures
        r matches Err(back) ==> back == response,
{
    slot.send(response)
}

/// What became of a message that came in.
#[derive(Debug)]
pub enum Routed {
    /// The response was handed to the caller that waits for it.
    Delivered,
    /// The response had a waiting entry, but its caller had gone away.
    Abandoned(Response),
    /// Nobody waits for the response: it is dropped.
    Discarded(Response),
    /// A notification, for the log.
    Notice(Notification),
    /// A request from the server, which this client does not serve.
    Unserved(Request),
}

/// A fresh reply slot: the half to register, and the half of the same
/// channel on which the reply is awaited.
pub fn reply_slot() -> (halves: (Sender<Response>, Receiver<Response>))
    ensures
        same_channel(halves.0, halves.1),
{
    channel()
}

/// Fulfils a slot with the response it waited for; the response comes
/// back where the caller has gone away.
pub fn fulfil(slot: Sender<Response>, response: Response) -> (r: Result<(), Response>)
    ensures
        r matches Err(back) ==> back == response,
{
    send(slot, response)
}

impl MessageRouter<Sender<Response>> {
    /// Registers a fresh slot for request `id` and hands out the half on
    /// which the reply is awaited. A slot registered for `id` before is
    /// given up, which its waiter sees as a cancellation.
    pub fn register_channel(&mut self, id: u64) -> (waiting: Receiver<Response>)
        requires
            old(self).wf(),
        ensures
            final(self).wf(),
            final(self).upcoming() == old(self).upcoming(),
            exists|slot: Sender<Response>|
                same_channel(slot, waiting) && final(self).pending() == registered(
                    old(self).pending(),
                    id,
                    slot,
                ),
    {
        let (slot, waiting) = channel();
        let _ = self.register_request(id, slot);
        assert(same_channel(slot, waiting) && self.pending() == registered(
            old(self).pending(),
            id,
            slot,
        ));
        waiting
    }

    /// Routes a response and fulfils the slot that waits for it. The entry
    /// for its `id` is gone afterwards, whether the caller still waited or
    /// not; a response for which there is no entry is discarded.
    pub fn deliver(&mut self, response: Response) -> (r: Routed)
        requires
            old(self).wf(),
        ensures
            final(self).wf(),
            final(self).upcoming() == old(self).upcoming(),
            final(self).pending() == routed(old(self).pending(), response.id@),
            match r {
                Routed::Delivered => addressee(old(self).pending(), response.id@).is_some(),
                Routed::Abandoned(back) => addressee(old(self).pending(), response.id@).is_some()
                    && back == response,
                Routed::Discarded(back) => addressee(old(self).pending(), response.id@).is_none()
                    && back == response,
                _ => false,
            },
    {
        match response.id.as_u64() {
            Some(id) => match self.release(id) {
                Some(slot) => match send(slot, response) {
                    Ok(_) => Routed::Delivered,
                    Err(back) => Routed::Abandoned(back),
                },
                None => Routed::Discarded(response),
            },
            None => Routed::Discarded(response),
        }
    }
}

impl McpClient<Sender<Response>> {
    /// Takes a message that came in and, where it is the response to a
    /// pending request, fulfils the slot that waits for it.
    pub fn route(&mut self, message: McpMessage) -> (r: Routed)
        requires
            old(self).wf(),
        ensures
            final(self).wf(),
            final(self).same_session(old(self)),
            final(self).upcoming() == old(self).upcoming(),
            match message {
                McpMessage::Response(response) => final(self).pending() == routed(
                    old(self).pending(),
                    response.id@,
                ) && match r {
                    Routed::Delivered => addressee(old(self).pending(), response.id@).is_some(),
                    Routed::Abandoned(back) => addressee(
                        old(self).pending(),
                        response.id@,
                    ).is_some() && back == response,
                    Routed::Discarded(back) => addressee(
                        old(self).pending(),
                        response.id@,
                    ).is_none() && back == response,
                    _ => false,
                },
                McpMessage::Notification(n) => final(self).pending() == old(self).pending() && (r
                    matches Routed::Notice(m) && m == n),
                McpMessage::Request(q) => final(self).pending() == old(self).pending() && (r
                    matches Routed::Unserved(m) && m == q),
            },
    {
        match self.dispatch(message) {
            Dispatch::Deliver(slot, response) => match send(slot, response) {
                Ok(_) => Routed::Delivered,
                Err(back) => Routed::Abandoned(back),
            },
            Dispatch::Discard(response) => Routed::Discarded(response),
            Dispatch::Notice(n) => Routed::Notice(n),
            Dispatch::Unserved(q) => Routed::Unserved(q),
        }
    }
}

} // verus!
