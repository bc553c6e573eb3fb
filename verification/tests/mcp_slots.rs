use tokio::sync::oneshot::error::TryRecvError;
use vega::mcp::client::{McpClient, Reply};
use vega::mcp::config::McpClientConfig;
use vega::mcp::json::Json;
use vega::mcp::protocol::{McpMessage, Response};
use vega::mcp::slot::{fulfil, reply_slot, Routed};
use vega::mcp::transport::MessageRouter;

fn response(id: u64, result: &str) -> Response {
    Response { id: Json::unsigned(id), result: Some(Json::text(result)), error: None }
}

#[test]
fn a_slot_is_fulfilled_once() {
    let (slot, mut waiting) = reply_slot();
    assert!(matches!(waiting.try_recv(), Err(TryRecvError::Empty)));
    assert!(fulfil(slot, response(1, "done")).is_ok());
    let got = waiting.try_recv().unwrap();
    assert_eq!(got.id.as_u64(), Some(1));
    assert_eq!(got.result.unwrap().as_str(), Some("done"));
    assert!(matches!(waiting.try_recv(), Err(TryRecvError::Closed)));

    let (slot, waiting) = reply_slot();
    drop(waiting);
    match fulfil(slot, response(2, "late")) {
        Err(back) => assert_eq!(back.id.as_u64(), Some(2)),
        Ok(_) => panic!("nobody waits"),
    }
}

#[test]
fn router_delivers_over_channels_by_id() {
    let mut router = MessageRouter::new();
    let first = router.next_id();
    let second = router.next_id();
    let mut first_waiting = router.register_channel(first);
    let mut second_waiting = router.register_channel(second);
    assert_eq!(router.pending_count(), 2);

    assert!(matches!(router.deliver(response(second, "fast")), Routed::Delivered));
    assert!(matches!(first_waiting.try_recv(), Err(TryRecvError::Empty)));
    assert_eq!(second_waiting.try_recv().unwrap().result.unwrap().as_str(), Some("fast"));

    assert!(matches!(router.deliver(response(first, "slow")), Routed::Delivered));
    assert_eq!(first_waiting.try_recv().unwrap().result.unwrap().as_str(), Some("slow"));

    assert!(matches!(router.deliver(response(first, "again")), Routed::Discarded(_)));
    assert_eq!(router.pending_count(), 0);
}

#[test]
fn a_waiter_that_went_away_leaves_an_abandoned_response() {
    let mut router = MessageRouter::new();
    let id = router.next_id();
    drop(router.register_channel(id));
    match router.deliver(response(id, "x")) {
        Routed::Abandoned(back) => assert_eq!(back.id.as_u64(), Some(id)),
        other => panic!("unexpected: {:?}", other),
    }
    assert_eq!(router.pending_count(), 0);
}

#[test]
fn registering_again_cancels_the_earlier_waiter() {
    let mut router = MessageRouter::new();
    let mut earlier = router.register_channel(7);
    let mut later = router.register_channel(7);
    assert!(matches!(earlier.try_recv(), Err(TryRecvError::Closed)));
    assert!(matches!(router.deliver(response(7, "x")), Routed::Delivered));
    assert!(later.try_recv().is_ok());
}

#[test]
fn closing_wakes_all_three_waiters() {
    let mut client = McpClient::new(McpClientConfig::default()).unwrap();
    client.connect().unwrap();
    let mut waiting = Vec::new();
    for name in ["a", "b", "c"] {
        let (slot, receiver) = reply_slot();
        client.call_tool(name, None, slot).unwrap();
        waiting.push(receiver);
    }
    assert_eq!(client.pending_count(), 3);
    for receiver in waiting.iter_mut() {
        assert!(matches!(receiver.try_recv(), Err(TryRecvError::Empty)));
    }

    drop(client.disconnect());

    for receiver in waiting.iter_mut() {
        assert!(matches!(receiver.try_recv(), Err(TryRecvError::Closed)));
    }
    assert_eq!(client.pending_count(), 0);
}

#[test]
fn client_routes_responses_to_their_callers() {
    let mut client = McpClient::new(McpClientConfig::default()).unwrap();
    client.connect().unwrap();
    let (slot, mut slow) = reply_slot();
    client.call_tool("slow", None, slot).unwrap();
    let (slot, mut fast) = reply_slot();
    client.call_tool("fast", None, slot).unwrap();

    let routed = client.route(McpMessage::decode(r#"{"id":2,"result":"fast done"}"#).unwrap());
    assert!(matches!(routed, Routed::Delivered));
    assert!(matches!(slow.try_recv(), Err(TryRecvError::Empty)));
    let reply = Reply::Response(fast.try_recv().unwrap());
    assert_eq!(client.complete_call(2, reply).unwrap().as_str(), Some("fast done"));

    // the slow call times out; its late response is discarded
    assert!(client.complete_call(1, Reply::TimedOut).is_err());
    let routed = client.route(McpMessage::decode(r#"{"id":1,"result":"late"}"#).unwrap());
    assert!(matches!(routed, Routed::Discarded(_)));
    assert!(matches!(slow.try_recv(), Err(TryRecvError::Closed)));

    let routed = client.route(McpMessage::decode(r#"{"method":"notifications/x"}"#).unwrap());
    assert!(matches!(routed, Routed::Notice(_)));
    let routed = client.route(McpMessage::decode(r#"{"id":9,"method":"ping"}"#).unwrap());
    assert!(matches!(routed, Routed::Unserved(_)));
}
