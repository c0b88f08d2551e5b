use std::collections::HashMap;
use tokio::sync::{mpsc, oneshot};
use walle_core::obc::RESPONSE_DEADLINE_SECS;
use walle_core::{
    AppOBC, BotMapInner, CallEvent, CallState, Dispatch, Echo, EchoMap, WalleError,
};

#[test]
fn unknown_bot_is_not_found() {
    let mut obc = AppOBC::new();
    obc.bots.ensure_tx("b1", 1);
    assert_eq!(obc.call("ghost-bot"), Err(WalleError::BotNotExist));
    // no token was minted and nothing is pending
    assert_eq!(obc.echos.pending("0"), None);
    assert_eq!(obc.bots.next_seg(), "0");
}

#[test]
fn end_to_end_call_is_resolved() {
    let mut obc = AppOBC::new();
    let (h, mut h_rx) = mpsc::unbounded_channel::<(String, &'static str)>();
    let mut handles: HashMap<u64, mpsc::UnboundedSender<(String, &'static str)>> = HashMap::new();
    let mut slots: HashMap<u64, oneshot::Sender<&'static str>> = HashMap::new();
    handles.insert(1, h);
    obc.bots.ensure_tx("b1", 1);

    let dispatched = obc.call("b1");
    let mut state = CallState::begin(&dispatched);
    let d = dispatched.unwrap();
    assert_eq!(state, CallState::Dispatched(d));
    let (tx, mut rx) = oneshot::channel();
    slots.insert(d.slot, tx);
    let sent = handles[&d.handle].send((d.token(), "get_status"));
    assert!(sent.is_ok());
    state = obc.advance(state, CallEvent::Sent);
    assert_eq!(state, CallState::Awaiting(d));
    assert_eq!(state.outcome(), None);

    let (token, action) = h_rx.try_recv().unwrap();
    assert!(!token.is_empty());
    assert_eq!(action, "get_status");

    let slot = obc.resolve(&token).unwrap();
    assert_eq!(slot, d.slot);
    slots.remove(&slot).unwrap().send("status: ok").unwrap();
    assert_eq!(rx.try_recv(), Ok("status: ok"));
    state = obc.advance(state, CallEvent::Response);
    assert_eq!(state, CallState::Resolved);
    assert_eq!(state.outcome(), Some(Ok(())));
    assert_eq!(RESPONSE_DEADLINE_SECS, 10);
}

#[test]
fn first_registered_handle_is_selected() {
    let mut obc = AppOBC::new();
    let (h1, mut rx1) = mpsc::unbounded_channel::<String>();
    let (h2, mut rx2) = mpsc::unbounded_channel::<String>();
    let handles = vec![h1, h2];
    obc.bots.ensure_tx("b1", 0);
    obc.bots.ensure_tx("b1", 1);
    let d = obc.call("b1").unwrap();
    assert_eq!(d.handle, 0);
    handles[d.handle as usize].send(d.token()).unwrap();
    assert_eq!(rx1.try_recv().unwrap(), "0");
    assert!(rx2.try_recv().is_err());
    assert_eq!(obc.bots.first_handle("b1"), Some(0));
}

#[test]
fn response_is_delivered_at_most_once() {
    let mut obc = AppOBC::new();
    obc.bots.ensure_tx("b1", 4);
    let d = obc.call("b1").unwrap();
    let token = d.token();
    assert_eq!(obc.echos.pending(&token), Some(d.slot));
    assert_eq!(obc.resolve(&token), Some(d.slot));
    assert_eq!(obc.resolve(&token), None);
    assert_eq!(obc.echos.pending(&token), None);
    assert_eq!(obc.resolve("never-minted"), None);
}

#[test]
fn timeout_leaves_nothing_to_deliver_to() {
    let mut obc = AppOBC::new();
    obc.bots.ensure_tx("b1", 4);
    let dispatched = obc.call("b1");
    let d = dispatched.clone().unwrap();
    let mut state = CallState::begin(&dispatched);
    state = obc.advance(state, CallEvent::Sent);
    state = obc.advance(state, CallEvent::Deadline);
    assert_eq!(state, CallState::TimedOut);
    assert_eq!(state.outcome(), Some(Err(WalleError::ResponseTimeout)));
    assert_eq!(obc.resolve(&d.token()), None);
    // a late response changes nothing
    state = obc.advance(state, CallEvent::Response);
    assert_eq!(state, CallState::TimedOut);
}

#[test]
fn failed_send_ends_the_call() {
    let mut obc = AppOBC::new();
    let (h, h_rx) = mpsc::unbounded_channel::<String>();
    drop(h_rx);
    obc.bots.ensure_tx("b1", 0);
    let dispatched = obc.call("b1");
    let d = dispatched.clone().unwrap();
    let mut state = CallState::begin(&dispatched);
    assert!(h.send(d.token()).is_err());
    state = obc.advance(state, CallEvent::SendError);
    assert_eq!(state, CallState::SendFailed);
    assert_eq!(state.outcome(), Some(Err(WalleError::ActionSendError)));
    assert_eq!(obc.echos.pending(&d.token()), None);
}

#[test]
fn call_states_step_as_listed() {
    let d = Dispatch { slot: 3, handle: 8 };
    let all_events = [
        CallEvent::Sent,
        CallEvent::SendError,
        CallEvent::Response,
        CallEvent::Deadline,
        CallEvent::SlotClosed,
    ];
    let mut obc = AppOBC::new();
    assert_eq!(
        obc.advance(CallState::Dispatched(d), CallEvent::Sent),
        CallState::Awaiting(d)
    );
    assert_eq!(
        obc.advance(CallState::Dispatched(d), CallEvent::SendError),
        CallState::SendFailed
    );
    assert_eq!(
        obc.advance(CallState::Dispatched(d), CallEvent::Response),
        CallState::Dispatched(d)
    );
    assert_eq!(
        obc.advance(CallState::Dispatched(d), CallEvent::Deadline),
        CallState::Dispatched(d)
    );
    assert_eq!(
        obc.advance(CallState::Awaiting(d), CallEvent::Response),
        CallState::Resolved
    );
    assert_eq!(
        obc.advance(CallState::Awaiting(d), CallEvent::Deadline),
        CallState::TimedOut
    );
    assert_eq!(
        obc.advance(CallState::Awaiting(d), CallEvent::SlotClosed),
        CallState::ReceiveFailed
    );
    assert_eq!(
        obc.advance(CallState::Dispatched(d), CallEvent::SlotClosed),
        CallState::Dispatched(d)
    );
    assert_eq!(
        obc.advance(CallState::Awaiting(d), CallEvent::Sent),
        CallState::Awaiting(d)
    );
    for ended in [
        CallState::Resolved,
        CallState::TimedOut,
        CallState::SendFailed,
        CallState::BotNotFound,
        CallState::ReceiveFailed,
    ] {
        assert!(ended.is_ended());
        for event in all_events {
            assert_eq!(obc.advance(ended, event), ended);
        }
    }
    assert!(!CallState::Dispatched(d).is_ended());
    assert!(!CallState::Awaiting(d).is_ended());
    assert_eq!(
        CallState::BotNotFound.outcome(),
        Some(Err(WalleError::BotNotExist))
    );
    assert_eq!(
        CallState::begin(&Err(WalleError::BotNotExist)),
        CallState::BotNotFound
    );
}

#[test]
fn expiry_spares_a_token_taken_by_another_slot() {
    let mut echos = EchoMap::new();
    assert!(echos.register("5".to_string(), 5));
    assert!(echos.register("6".to_string(), 60));
    echos.expire(6);
    assert_eq!(echos.pending("6"), Some(60));
    echos.expire(5);
    assert_eq!(echos.pending("5"), None);
    echos.expire(5);
    assert_eq!(echos.pending("5"), None);
}

#[test]
fn a_taken_token_keeps_its_slot() {
    let mut echos = EchoMap::new();
    assert!(echos.register("6".to_string(), 60));
    assert!(!echos.register("6".to_string(), 6));
    assert_eq!(echos.pending("6"), Some(60));
    assert_eq!(echos.resolve("6"), Some(60));
    assert!(echos.register("6".to_string(), 6));
    assert_eq!(echos.resolve("6"), Some(6));
    assert_eq!(echos.resolve("6"), None);
}

#[test]
fn channels_attach_and_detach() {
    let mut bots = BotMapInner::new();
    assert_eq!(bots.first_handle("b1"), None);
    bots.ensure_tx("b1", 10);
    bots.ensure_tx("b1", 11);
    bots.ensure_tx("b2", 12);
    bots.ensure_tx("b1", 10);
    assert_eq!(bots.first_handle("b1"), Some(10));
    bots.remove_bot("b1", 10);
    assert_eq!(bots.first_handle("b1"), Some(11));
    // a second removal of the same channel changes nothing
    bots.remove_bot("b1", 10);
    assert_eq!(bots.first_handle("b1"), Some(11));
    bots.remove_bot("b1", 99);
    bots.remove_bot("b3", 10);
    assert_eq!(bots.first_handle("b3"), None);
    bots.remove_bot("b1", 11);
    assert_eq!(bots.first_handle("b1"), None);
    assert_eq!(bots.first_handle("b2"), Some(12));
    // the identity is known but has no channel: the call finds no bot
    let mut echos = EchoMap::new();
    assert_eq!(
        bots.handle_action("b1", &mut echos),
        Err(WalleError::BotNotExist)
    );
    bots.ensure_tx("b1", 13);
    assert_eq!(
        bots.handle_action("b1", &mut echos),
        Ok(Dispatch { slot: 0, handle: 13 })
    );
    assert_eq!(
        bots.handle_action("b2", &mut echos),
        Ok(Dispatch { slot: 1, handle: 12 })
    );
    assert_eq!(echos.pending("0"), Some(0));
    assert_eq!(echos.pending("1"), Some(1));
}

#[test]
fn fresh_connectors_are_empty() {
    let mut obc = AppOBC::default();
    assert_eq!(obc.call("b1"), Err(WalleError::BotNotExist));
    assert_eq!(obc.resolve("0"), None);
    let mut bots = BotMapInner::default();
    assert_eq!(bots.first_handle("b1"), None);
    assert_eq!(bots.next_seg(), "0");
    assert_eq!(bots.next_seg(), "1");
}

#[test]
fn envelopes_carry_the_token_and_are_routed_by_it() {
    let mut obc = AppOBC::new();
    obc.bots.ensure_tx("b1", 2);
    let d = obc.call("b1").unwrap();
    let envelope = d.pack("get_status");
    assert_eq!(envelope, Echo { inner: "get_status", echo: Some("0".to_string()) });
    assert_eq!(envelope.clone().unpack(), ("get_status", Some("0".to_string())));
    // an event carries no token and is not delivered to any call
    assert_eq!(obc.deliver(Echo { inner: "heartbeat", echo: None }), None);
    assert_eq!(obc.echos.pending("0"), Some(0));
    // a response nobody waits for is dropped
    assert_eq!(obc.deliver(Echo { inner: "stray", echo: Some("17".to_string()) }), None);
    assert_eq!(
        obc.deliver(Echo { inner: "ok", echo: Some("0".to_string()) }),
        Some((0, "ok"))
    );
    // a duplicate of the response is dropped
    assert_eq!(obc.deliver(Echo { inner: "ok", echo: Some("0".to_string()) }), None);
}

#[test]
fn a_closed_slot_ends_the_call() {
    let mut obc = AppOBC::new();
    obc.bots.ensure_tx("b1", 4);
    let dispatched = obc.call("b1");
    let d = dispatched.clone().unwrap();
    let (tx, mut rx) = oneshot::channel::<&'static str>();
    let mut state = CallState::begin(&dispatched);
    state = obc.advance(state, CallEvent::Sent);
    drop(tx);
    assert!(rx.try_recv().is_err());
    state = obc.advance(state, CallEvent::SlotClosed);
    assert_eq!(state, CallState::ReceiveFailed);
    assert_eq!(
        state.outcome(),
        Some(Err(WalleError::Other("channel closed".to_string())))
    );
    assert_eq!(obc.echos.pending(&d.token()), None);
    assert_eq!(obc.resolve(&d.token()), None);
}
