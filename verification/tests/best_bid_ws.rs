use rbuilder_operator::best_bid_ws::{
    basic_authorization, connection_request, BestBidValue, ConnectorError, ReadCommand,
    SubscriptionList, WsAction, WsEvent, WsReaderState, MAX_IO_ERRORS,
};
use rbuilder_operator::u256::U256;

#[test]
fn observers_of_a_slot_in_order() {
    let mut subs = SubscriptionList::new();
    subs.subscribe(10, 1, 100, "a");
    subs.subscribe(11, 1, 101, "b");
    subs.subscribe(10, 1, 102, "c");
    subs.subscribe(10, 2, 103, "d");
    assert_eq!(subs.observers_for(10, 1), vec!["a", "c"]);
    assert_eq!(subs.observers_for(10, 2), vec!["d"]);
    assert!(subs.observers_for(12, 1).is_empty());
}

#[test]
fn unsubscribe_removes_every_subscription_of_the_observer() {
    let mut subs = SubscriptionList::new();
    subs.subscribe(10, 1, 100, "a");
    subs.subscribe(10, 1, 101, "b");
    subs.subscribe(11, 1, 100, "a2");
    subs.unsubscribe(100);
    assert_eq!(subs.observers_for(10, 1), vec!["b"]);
    assert!(subs.observers_for(11, 1).is_empty());
    subs.unsubscribe(999);
    assert_eq!(subs.observers_for(10, 1), vec!["b"]);
}

fn bid(block: u64, slot: u64, top: u64) -> BestBidValue {
    BestBidValue { block_number: block, slot_number: slot, block_top_bid: U256::from_u64(top) }
}

#[test]
fn reader_commands() {
    let state = WsReaderState::new();
    assert_eq!(state.next_command(false), ReadCommand::Read);
    assert_eq!(state.next_command(true), ReadCommand::Finish);
}

#[test]
fn reader_events() {
    let mut state = WsReaderState::new();
    assert!(matches!(state.on_event(WsEvent::Timeout), WsAction::Reconnect));
    assert!(matches!(state.on_event(WsEvent::StreamClosed), WsAction::Reconnect));
    assert!(matches!(state.on_event(WsEvent::Close), WsAction::Reconnect));
    assert!(matches!(state.on_event(WsEvent::Ping), WsAction::Continue));
    assert!(matches!(state.on_event(WsEvent::Pong), WsAction::Continue));
    assert!(matches!(state.on_event(WsEvent::Frame), WsAction::Continue));
    assert!(matches!(state.on_event(WsEvent::Data(None)), WsAction::Continue));
    match state.on_event(WsEvent::Data(Some(bid(5, 6, 0)))) {
        WsAction::NewBid { value, non_zero } => {
            assert_eq!(value.block_number, 5);
            assert_eq!(value.slot_number, 6);
            assert!(!non_zero);
        }
        _ => panic!("expected a bid"),
    }
    match state.on_event(WsEvent::Data(Some(bid(5, 6, 42)))) {
        WsAction::NewBid { value, non_zero } => {
            assert_eq!(value.block_top_bid, U256::from_u64(42));
            assert!(non_zero);
        }
        _ => panic!("expected a bid"),
    }
    assert_eq!(state.next_command(false), ReadCommand::Read);
}

#[test]
fn reader_reconnects_after_max_errors() {
    let mut state = WsReaderState::new();
    for _ in 0..MAX_IO_ERRORS {
        assert_eq!(state.next_command(false), ReadCommand::Read);
        assert!(matches!(state.on_event(WsEvent::ReadError), WsAction::Continue));
    }
    assert_eq!(state.next_command(false), ReadCommand::Reconnect);
}

#[test]
fn basic_authorization_header() {
    assert_eq!(basic_authorization("dXNlcjpwYXNz"), "Basic dXNlcjpwYXNz");
    assert_eq!(basic_authorization(""), "Basic ");
}

#[test]
fn connection_request_for_relay_stream() {
    let req = connection_request("wss://relay.example.com/ws/v1/top_bid", "dXNlcjpwYXNz").unwrap();
    assert_eq!(req.url, "wss://relay.example.com/ws/v1/top_bid");
    assert_eq!(req.request.uri().to_string(), "wss://relay.example.com/ws/v1/top_bid");
    assert_eq!(req.request.headers().get("Authorization").unwrap(), "Basic dXNlcjpwYXNz");
    assert_eq!(req.request.headers().get("Host").unwrap(), "relay.example.com");
    assert_eq!(req.request.headers().get_all("Authorization").iter().count(), 1);
}

#[test]
fn connection_request_errors() {
    assert_eq!(connection_request("not a url", "x").err(), Some(ConnectorError::InvalidUrl));
    assert_eq!(connection_request("/no/host", "x").err(), Some(ConnectorError::InvalidUrl));
    assert_eq!(
        connection_request("ws://relay.example.com/", "bad\nvalue").err(),
        Some(ConnectorError::InvalidAuthorization)
    );
    assert!(connection_request("ws://relay.example.com/", "tab\tis fine").is_ok());
}
