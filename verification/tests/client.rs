use wacore_binary::builder::NodeBuilder;
use whatsapp_rust::client::account::{
    cache_lid_pn_from_message, dispatch_chatstate_event, unique_id, Account,
    ChatPresence, ChatPresenceMedia, ChatstateSource, DevicePropsStep, EditError, LearningSource,
    ReceivedChatState,
};
use whatsapp_rust::client::app_state::PatchName;
use whatsapp_rust::client::error::{ClientError, EncryptSendError, IqFailure, SocketError};
use whatsapp_rust::client::failure::{
    ConnectFailureEvent, ConnectFailureReason, StreamEvent, TempBanReason,
};
use whatsapp_rust::client::filter::NodeFilter;
use whatsapp_rust::client::inbound::FinishStep;
use whatsapp_rust::client::link::{
    judge_connect, ConnectError, Link, LogoutError, LoopStep, PartResult,
};
use whatsapp_rust::client::login::{
    critical_watch_fires, lid_changed, server_time_of, LoginAction, LoginFacts, LoginStage,
    PostLogin, SuccessOutcome,
};
use whatsapp_rust::client::reader::{transport_ended, AfterFrame, Reader};
use whatsapp_rust::client::stanza::Handler;
use whatsapp_rust::client::state::{
    AckStep, CacheConfig, CacheSizes, Client, NodeStep,
};
use whatsapp_rust::flush_scope::FlushStep;
use whatsapp_rust::jid::Jid;
use whatsapp_rust::message::plaintext::MessageEvent;
use whatsapp_rust::message::retry::{make_retry_cache_key, RetryPlan, RETRY_COUNT_LIFETIME_MS};
use whatsapp_rust::node::{Attr, Node};
use whatsapp_rust::types::{
    AddressingMode, DecryptFailMode, EditAttribute, MessageCategory, MessageInfo, MessageSource,
    UnavailableType, UndecryptableMessage,
};
use whatsapp_rust::wire::Stanza;
use prost::Message;

fn attrs(pairs: &[(&str, &str)]) -> Vec<Attr> {
    pairs.iter().map(|(name, value)| Attr::text(name, value)).collect()
}

fn leaf(tag: &str, pairs: &[(&str, &str)]) -> Node {
    Node::leaf(tag, attrs(pairs))
}

fn parent(tag: &str, pairs: &[(&str, &str)], children: Vec<Node>) -> Node {
    Node::parent(tag, attrs(pairs), children)
}

fn jid(text: &str) -> Jid {
    match Jid::parse(text) {
        Some(jid) => jid,
        None => panic!("{text} should be an address"),
    }
}

fn config() -> CacheConfig {
    CacheConfig {
        session_locks_capacity: 10,
        chat_lanes_capacity: 2,
        retry_counts_lifetime_ms: RETRY_COUNT_LIFETIME_MS,
        reported_lifetime_ms: 1000,
    }
}

fn fresh() -> Client {
    Client::new_with_cache_config(Account::new(), config())
}

fn info(chat: &str, id: &str, sender: &str) -> MessageInfo {
    let chat = jid(chat);
    let is_group = chat.is_group();
    MessageInfo {
        source: MessageSource {
            chat,
            sender: jid(sender),
            sender_alt: None,
            is_from_me: false,
            is_group,
            addressing_mode: None,
            broadcast_list_owner: None,
            recipient: None,
        },
        id: id.to_string(),
        server_id: 0,
        push_name: "Test User".to_string(),
        timestamp: 0,
        category: MessageCategory::Empty,
        edit: EditAttribute::Empty,
        is_offline: false,
        ephemeral_expiration: None,
    }
}

fn stanza(node: wacore_binary::Node) -> Stanza {
    let bytes = match wacore_binary::marshal::marshal(&node) {
        Ok(bytes) => bytes,
        Err(e) => panic!("{e}"),
    };
    match Stanza::decode(bytes[1..].to_vec()) {
        Some(stanza) => stanza,
        None => panic!("the bytes should be a stanza"),
    }
}

fn message_stanza(from: &str, id: &str) -> Stanza {
    stanza(NodeBuilder::new("message").attr("from", from).attr("id", id).build())
}

// The connection.

#[test]
fn test_custom_cache_config_is_respected() {
    let client = fresh();
    assert!(!client.is_logged_in());
    assert!(!client.is_connected());
    assert_eq!(client.options.session_locks_capacity, 10);
    let none = Client::new_with_cache_config(
        Account::new(),
        CacheConfig { session_locks_capacity: 0, chat_lanes_capacity: 0, ..config() },
    );
    assert_eq!(none.options.session_locks_capacity, 1);
}

#[test]
fn clients_have_prefixes_of_two_numbers() {
    assert_eq!(unique_id(7, 255), "7.255");
    let client = fresh();
    let parts: Vec<&str> = client.unique_id.split('.').collect();
    assert_eq!(parts.len(), 2);
    for part in parts {
        assert!(part.parse::<u8>().is_ok(), "{part}");
    }
    let others: Vec<String> = (0..64).map(|_| fresh().unique_id).collect();
    assert!(others.iter().any(|id| *id != client.unique_id));
}

#[test]
fn test_offline_sync_flag_initially_false() {
    assert!(!fresh().link.offline_sync_completed);
}

#[test]
fn test_stream_error_401_disables_reconnect() {
    let mut link = Link::new();
    let outcome = link.handle_stream_error(&leaf("stream:error", &[("code", "401")]));
    assert!(!link.enable_auto_reconnect);
    assert_eq!(outcome.event, Some(StreamEvent::LoggedOut));
    assert!(outcome.disconnect);
}

#[test]
fn test_stream_error_409_disables_reconnect() {
    let mut link = Link::new();
    let outcome = link.handle_stream_error(&leaf("stream:error", &[("code", "409")]));
    assert!(!link.enable_auto_reconnect);
    assert_eq!(outcome.event, Some(StreamEvent::Replaced));
}

#[test]
fn test_stream_error_429_keeps_reconnect_with_backoff() {
    let mut link = Link::new();
    link.auto_reconnect_errors = 2;
    let outcome = link.handle_stream_error(&leaf("stream:error", &[("code", "429")]));
    assert!(link.enable_auto_reconnect);
    assert_eq!(link.auto_reconnect_errors, 2 + 5);
    assert_eq!(outcome.event, None);
    assert_eq!(link.end_round(), LoopStep::Wait(7));
}

#[test]
fn test_stream_error_503_keeps_reconnect() {
    let mut link = Link::new();
    link.handle_stream_error(&leaf("stream:error", &[("code", "503")]));
    assert!(link.enable_auto_reconnect);
    assert!(!link.expected_disconnect);
}

#[test]
fn stream_errors_by_conflict_come_first() {
    let mut link = Link::new();
    let node = parent("stream:error", &[("code", "515")], vec![leaf("conflict", &[("type", "replaced")])]);
    assert_eq!(link.handle_stream_error(&node).event, Some(StreamEvent::Replaced));

    let mut link = Link::new();
    let node = parent("stream:error", &[], vec![leaf("conflict", &[("type", "device_removed")])]);
    assert_eq!(link.handle_stream_error(&node).event, Some(StreamEvent::LoggedOut));
}

#[test]
fn stream_restarts_and_unknown_errors() {
    let mut link = Link::new();
    let outcome = link.handle_stream_error(&leaf("stream:error", &[("code", "515")]));
    assert!(outcome.disconnect && outcome.event.is_none());
    assert!(link.expected_disconnect && link.enable_auto_reconnect);
    assert_eq!(link.end_round(), LoopStep::Again);

    let mut link = Link::new();
    let outcome = link.handle_stream_error(&leaf("stream:error", &[("code", "999")]));
    assert_eq!(outcome.event, Some(StreamEvent::Other { code: "999".to_string() }));
    assert!(!outcome.disconnect);
}

#[test]
fn refused_logins() {
    let mut link = Link::new();
    let event = link.handle_connect_failure(&leaf("failure", &[("reason", "401")]));
    assert_eq!(event, ConnectFailureEvent::LoggedOut(ConnectFailureReason::LoggedOut));
    assert!(!link.enable_auto_reconnect);

    let mut link = Link::new();
    let event = link.handle_connect_failure(&leaf(
        "failure",
        &[("reason", "402"), ("code", "101"), ("expire", "3600")],
    ));
    assert_eq!(
        event,
        ConnectFailureEvent::TemporaryBan {
            code: TempBanReason::SentToTooManyPeople,
            expire_secs: 3600,
        }
    );

    let mut link = Link::new();
    let event = link.handle_connect_failure(&leaf(
        "failure",
        &[("reason", "402"), ("expire", "9223372036854775807")],
    ));
    assert_eq!(
        event,
        ConnectFailureEvent::TemporaryBan { code: TempBanReason::Unknown(0), expire_secs: 0 }
    );

    let mut link = Link::new();
    let event = link.handle_connect_failure(&leaf("failure", &[("reason", "405")]));
    assert_eq!(event, ConnectFailureEvent::ClientOutdated);

    let mut link = Link::new();
    let event =
        link.handle_connect_failure(&leaf("failure", &[("reason", "503"), ("message", "later")]));
    assert_eq!(
        event,
        ConnectFailureEvent::Failed {
            reason: ConnectFailureReason::ServiceUnavailable,
            message: "later".to_string(),
        }
    );
    assert!(link.enable_auto_reconnect);
    assert!(!link.expected_disconnect);
}

#[test]
fn per_connection_notify_leaves_terminal_signal_untouched() {
    let mut client = fresh();
    client.link.notify_connection_shutdown();
    assert!(!client.shutdown_signal());
}

#[test]
fn reset_gives_fresh_per_connection_notifier() {
    let mut link = Link::new();
    link.notify_connection_shutdown();
    assert!(link.connection_shut_down);
    assert_eq!(link.begin_connect(), Ok(()));
    link.finish_connect(true);
    assert!(!link.connection_shut_down);
}

#[test]
fn strict_logout_fails_closed_without_a_confirmable_remote_request() {
    let mut disconnected = fresh();
    let reconnect_was_enabled = disconnected.link.enable_auto_reconnect;
    assert_eq!(disconnected.logout_strict().err(), Some(LogoutError::NotConnected));
    assert_eq!(disconnected.link.enable_auto_reconnect, reconnect_was_enabled);
    assert!(!disconnected.shutdown_signal());

    let mut missing_identity = fresh();
    missing_identity.link.is_connected = true;
    assert_eq!(missing_identity.logout_strict().err(), Some(LogoutError::NoIdentity));
    assert!(missing_identity.link.enable_auto_reconnect);
    assert!(missing_identity.is_connected());
    assert!(!missing_identity.shutdown_signal());
}

#[test]
fn unconfirmed_logouts_leave_no_trace() {
    let mut client = fresh();
    client.link.is_connected = true;
    client.account.pn = Some(jid("15551234567@s.whatsapp.net"));
    let before = client.link;
    let logout = match client.logout_strict() {
        Ok(logout) => logout,
        Err(e) => panic!("{e:?}"),
    };
    assert!(!client.link.enable_auto_reconnect);
    assert_eq!(client.link.finish_strict_logout(logout, false), Err(LogoutError::NotConfirmed));
    assert_eq!(client.link, before);
    assert!(client.logout());
    assert!(!client.link.enable_auto_reconnect);
}

#[test]
fn terminal_disconnect_propagates_to_per_connection_signal() {
    let mut client = fresh();
    assert!(client.link.outbound_flush.spawn());
    client.disconnect();
    assert!(!client.link.connection_shut_down, "stanzas under way are flushed first");
    assert_eq!(client.link.outbound_flush.pending(), 1);
    assert!(!client.link.outbound_flush.spawn());
    assert!(client.link.outbound_flush.task_ended());
    client.cleanup_connection_state();
    assert!(client.link.connection_shut_down);
    assert!(client.shutdown_signal());
    assert_eq!(client.link.begin_round(), LoopStep::Exit);
}

#[test]
fn disconnect_does_not_signal_connection_cleanup_before_outbound_flush() {
    let mut client = fresh();
    client.link.is_connected = true;
    assert!(client.link.outbound_flush.spawn(), "tracked send should start");
    client.disconnect();
    assert!(
        !client.link.connection_shut_down,
        "connection cleanup must not fire while outbound flush is blocked"
    );
    assert!(client.is_connected(), "transport must stay open while outbound flush is blocked");
    assert_eq!(client.link.outbound_flush.flush(1000), FlushStep::Wait(1000));

    assert!(client.link.outbound_flush.task_ended());
    assert_eq!(client.link.outbound_flush.flush(1000), FlushStep::Done);
    client.cleanup_connection_state();
    assert!(client.link.connection_shut_down);
    assert!(!client.is_connected());
}

#[test]
fn locks_are_dropped_when_there_are_too_many() {
    let client = fresh();
    assert!(!client.session_locks_full(9, false));
    assert!(client.session_locks_full(10, false));
    assert!(!client.session_locks_full(10, true));
}

#[test]
fn reconnects_wait_or_do_not() {
    let mut client = fresh();
    assert!(client.link.start_running());
    assert!(!client.link.start_running());
    client.reconnect();
    client.cleanup_connection_state();
    assert_eq!(client.link.end_round(), LoopStep::Wait(4));
    assert!(client.link.connection_shut_down && !client.shutdown_signal());

    let mut client = fresh();
    client.link.start_running();
    client.link.auto_reconnect_errors = 9;
    client.reconnect_immediately();
    client.cleanup_connection_state();
    assert_eq!(client.link.end_round(), LoopStep::Again);
    assert_eq!(client.link.auto_reconnect_errors, 0);
    assert_eq!(client.link.begin_round(), LoopStep::Connect);
    assert!(!client.link.expected_disconnect);
}

#[test]
fn only_one_connection_is_made() {
    let mut client = fresh();
    assert_eq!(client.connect(), Ok(()));
    assert_eq!(client.connect(), Err(ClientError::AlreadyConnected));
    client.link.finish_connect(true);
    assert!(client.wait_for_socket());
    assert!(!client.wait_for_connected());
    assert_eq!(client.connect(), Err(ClientError::AlreadyConnected));
    client.link.is_logged_in = true;
    client.link.dispatch_connected();
    assert!(client.wait_for_connected());
}

#[test]
fn versions_are_looked_at_before_transports() {
    assert_eq!(judge_connect(PartResult::Ready, PartResult::Ready), Ok(()));
    assert_eq!(
        judge_connect(PartResult::TimedOut, PartResult::Failed),
        Err(ConnectError::VersionTimedOut)
    );
    assert_eq!(
        judge_connect(PartResult::Failed, PartResult::Ready),
        Err(ConnectError::VersionFailed)
    );
    assert_eq!(
        judge_connect(PartResult::Ready, PartResult::TimedOut),
        Err(ConnectError::TransportTimedOut)
    );
    assert_eq!(
        judge_connect(PartResult::Ready, PartResult::Failed),
        Err(ConnectError::TransportFailed)
    );
}

#[test]
fn surprises_are_told_apart() {
    let mut link = Link::new();
    assert!(link.stanzas_ended(true));
    assert!(!link.stanzas_ended(false));
    link.intentional_reconnect = true;
    assert!(!link.stanzas_ended(true));
    assert!(!link.intentional_reconnect);
    link.expected_disconnect = true;
    assert!(!link.stanzas_ended(true));
    assert!(!transport_ended(&link));
}

#[test]
fn cleanup_forgets_the_connection_but_not_the_waiters() {
    let mut client = fresh();
    let waiting = client.wait_for_node(NodeFilter::tag("success"));
    client.wait_for_sent_node(NodeFilter::tag("receipt"));
    client.register_ack_waiter("REQ");
    client.key_requests.insert("00", 1);
    client.syncing.insert(PatchName::Regular);
    client.link.is_logged_in = true;
    client.link.last_data_received_ms = 5;
    client.cleanup_connection_state();
    assert!(!client.link.is_logged_in);
    assert_eq!(client.link.last_data_received_ms, 0);
    assert_eq!(client.node_waiters.list[0].id, waiting);
    assert_eq!(client.sent_node_waiters.count(), 0);
    assert_eq!(client.response_waiters.len(), 0);
    assert_eq!(client.key_requests.len(), 0);
    assert_eq!(client.syncing.len(), 0);
}

#[test]
fn failed_syncs_are_no_news_at_the_end() {
    let mut client = fresh();
    client.link.is_running = true;
    assert!(!client.should_downgrade_sync_error(None));
    assert!(!client.should_downgrade_sync_error(Some(IqFailure::Server { code: 500 })));
    assert!(client.should_downgrade_sync_error(Some(IqFailure::NotConnected)));
    assert!(client.should_downgrade_sync_error(Some(IqFailure::InternalChannelClosed)));
    client.link.expected_disconnect = true;
    assert!(client.should_downgrade_sync_error(None));
}

// Errors.

#[test]
fn errors_in_words() {
    let gone = ClientError::EncryptSend(EncryptSendError {
        transport_unavailable: true,
        message: "gone".to_string(),
    });
    assert!(gone.is_transport_unavailable());
    assert!(ClientError::NotConnected.is_transport_unavailable());
    assert!(!ClientError::NotLoggedIn.is_transport_unavailable());
    let socket = ClientError::Socket(SocketError { message: "broken".to_string() });
    assert!(!socket.is_transport_unavailable());
    assert_eq!(socket.to_text(), "socket error: broken");
    assert_eq!(gone.to_text(), "encrypt/send error: gone");
    assert_eq!(ClientError::NotConnected.to_text(), "client is not connected");
    assert_eq!(ClientError::AlreadyConnected.to_text(), "client is already connected");
    assert_eq!(ClientError::NotLoggedIn.to_text(), "client is not logged in");
}

// Stanzas.

fn after_stanza(active: bool, total: usize, node: &Node) -> Client {
    let mut client = fresh();
    client.link.offline_sync.active = active;
    client.link.offline_sync.total_messages = total;
    client.process_node(node, 1);
    client
}

#[test]
fn test_ib_thread_metadata_does_not_end_sync() {
    let node = parent(
        "ib",
        &[],
        vec![parent("thread_metadata", &[], vec![leaf("item", &[])])],
    );
    assert!(after_stanza(true, 0, &node).link.offline_sync.active);
}

#[test]
fn test_ib_edge_routing_does_not_end_sync() {
    let routing = Node::with_bytes("routing_info", Vec::new(), vec![1, 2, 3]);
    let node = parent("ib", &[], vec![parent("edge_routing", &[], vec![routing])]);
    assert!(after_stanza(true, 0, &node).link.offline_sync.active);
}

#[test]
fn test_ib_dirty_does_not_end_sync() {
    let node = parent("ib", &[], vec![leaf("dirty", &[("type", "groups"), ("timestamp", "1234")])]);
    assert!(after_stanza(true, 0, &node).link.offline_sync.active);
}

#[test]
fn test_ib_offline_child_ends_sync() {
    let node = parent("ib", &[], vec![leaf("offline", &[("count", "301")])]);
    assert!(!after_stanza(true, 301, &node).link.offline_sync.active);
}

#[test]
fn test_ib_offline_preview_starts_sync() {
    let node = parent(
        "ib",
        &[],
        vec![leaf(
            "offline_preview",
            &[
                ("count", "301"),
                ("message", "168"),
                ("notification", "62"),
                ("receipt", "68"),
                ("appdata", "0"),
            ],
        )],
    );
    let client = after_stanza(false, 0, &node);
    assert!(client.link.offline_sync.active);
    assert_eq!(client.link.offline_sync.total_messages, 301);
    let node = parent("ib", &[], vec![leaf("offline_preview", &[("count", "none")])]);
    assert!(!after_stanza(true, 5, &node).link.offline_sync.active);
}

#[test]
fn test_offline_message_increments_processed() {
    let node = leaf(
        "message",
        &[
            ("offline", "1"),
            ("from", "5551234567@s.whatsapp.net"),
            ("id", "TEST123"),
            ("t", "1772884671"),
            ("type", "text"),
        ],
    );
    let client = after_stanza(true, 100, &node);
    assert_eq!(client.link.offline_sync.processed_messages, 1);
    assert!(client.link.offline_sync.active);
    assert!(!after_stanza(true, 1, &node).link.offline_sync.active);
}

#[test]
fn test_ack_waiter_resolves() {
    let mut client = fresh();
    let waiter = client.register_ack_waiter("ack-test-123");
    assert!(client.response_waiters.contains("ack-test-123"));
    let ack = leaf("ack", &[("id", "ack-test-123"), ("from", "s.whatsapp.net")]);
    assert_eq!(client.handle_ack_response(&ack).0, Some(waiter));
    assert!(!client.response_waiters.contains("ack-test-123"));
    assert_eq!(client.handle_ack_response(&ack).0, None);
}

#[test]
fn test_ack_without_matching_waiter() {
    let mut client = fresh();
    let ack = leaf("ack", &[("id", "non-existent-id"), ("from", "s.whatsapp.net")]);
    assert_eq!(client.handle_ack_response(&ack).0, None);
}

#[test]
fn answers_reach_those_who_wait() {
    let mut client = fresh();
    let other = client.register_ack_waiter("B");
    let waiter = client.register_ack_waiter("A");
    let iq = leaf("iq", &[("id", "A"), ("type", "result")]);
    assert_eq!(client.process_node(&iq, 0).step, NodeStep::Answered(waiter));
    assert_eq!(client.process_node(&iq, 0).step, NodeStep::Dispatch(Some(Handler::Iq)));
    let receipt = leaf("receipt", &[("id", "B")]);
    assert_eq!(client.process_node(&receipt, 0).step, NodeStep::Dispatch(Some(Handler::Receipt)));
    assert_eq!(client.response_waiters.get("B"), Some(&other));
    assert_eq!(client.process_node(&leaf("odd", &[]), 0).step, NodeStep::Dispatch(None));
}

#[test]
fn stream_ends_end_the_connection() {
    let mut client = fresh();
    client.set_raw_node_forwarding(true);
    client.wait_for_node(NodeFilter::tag("xmlstreamend"));
    let outcome = client.process_node(&leaf("xmlstreamend", &[]), 0);
    assert_eq!(outcome.step, NodeStep::StreamEnded);
    assert!(outcome.forward_raw);
    assert!(outcome.woken.is_empty());
    assert!(client.link.connection_shut_down);
    assert!(!client.shutdown_signal());
}

#[test]
fn stanzas_wake_those_who_wait() {
    let mut client = fresh();
    let id = client.wait_for_node(NodeFilter::tag("receipt").attr("type", "read"));
    assert!(client.process_node(&leaf("receipt", &[]), 0).woken.is_empty());
    assert_eq!(client.process_node(&leaf("receipt", &[("type", "read")]), 0).woken, vec![id]);
    assert_eq!(client.node_waiters.count(), 0);
}

#[test]
fn sent_stanzas_wake_those_who_wait() {
    let mut client = fresh();
    let id = client.wait_for_sent_node(NodeFilter::tag("receipt"));
    match client.send_node(&leaf("receipt", &[("id", "1")])) {
        Ok(outgoing) => {
            assert_eq!(outgoing.woken, vec![id]);
            assert_eq!(outgoing.bytes[0], 0);
            assert!(Stanza::decode(outgoing.bytes[1..].to_vec()).is_some());
        }
        Err(e) => panic!("{e:?}"),
    }
    assert_eq!(client.sent_node_waiters.count(), 0);
}

#[test]
fn options_can_be_changed() {
    let mut client = fresh();
    assert!(!client.skip_history_sync_enabled());
    client.set_skip_history_sync(true);
    assert!(client.skip_history_sync_enabled());
}

// Messages on their way to the application.

#[test]
fn messages_are_acknowledged_when_the_application_has_them() {
    let mut client = fresh();
    let node = leaf("message", &[("id", "M1"), ("from", "15551234567@s.whatsapp.net")]);
    assert_eq!(client.maybe_deferred_ack(&node, false), AckStep::AfterCommit);

    let event = MessageEvent {
        message: Vec::new(),
        info: info("15551234567@s.whatsapp.net", "M1", "15551234567@s.whatsapp.net"),
    };
    client.dispatch_message(&event);
    assert!(matches!(client.finish_incoming_message(&node), FinishStep::Wait));
    assert!(!client.acknowledge_inbound_message("M2"));
    assert!(client.acknowledge_inbound_message("M1"));
    match client.finish_incoming_message(&node) {
        FinishStep::Acknowledge { receipt: Some(info) } => assert_eq!(info.id, "M1"),
        _ => panic!("the sender is to be told"),
    }
    assert!(!client.acknowledge_inbound_message("M1"));
    assert!(matches!(
        client.finish_incoming_message(&node),
        FinishStep::Acknowledge { receipt: None }
    ));
}

#[test]
fn senders_of_unreadable_messages_are_not_told() {
    let mut client = fresh();
    let node = leaf("message", &[("id", "M1"), ("from", "15551234567@s.whatsapp.net")]);
    let about = info("15551234567@s.whatsapp.net", "M1", "15551234567@s.whatsapp.net");
    let chat = jid("15551234567@s.whatsapp.net");
    let (event, _) = client.handle_decrypt_failure(&about, &chat, &chat, DecryptFailMode::Show, 0);
    assert!(event.is_some());
    assert!(matches!(client.finish_incoming_message(&node), FinishStep::Wait));
    assert!(client.acknowledge_inbound_message("M1"));
    assert!(matches!(
        client.finish_incoming_message(&node),
        FinishStep::Acknowledge { receipt: None }
    ));
}

#[test]
fn failures_end_the_connection_but_not_the_client() {
    for node in [
        leaf("stream:error", &[("code", "516")]),
        leaf("stream:error", &[("code", "429")]),
        leaf("stream:error", &[]),
    ] {
        let mut link = Link::new();
        link.handle_stream_error(&node);
        assert!(link.connection_shut_down && !link.shut_down);
    }
    let mut link = Link::new();
    link.handle_connect_failure(&leaf("failure", &[("reason", "401")]));
    assert!(link.connection_shut_down && !link.shut_down);
    link.clean_up();
    assert!(!link.shut_down);
}

#[test]
fn other_stanzas_are_acknowledged_at_once() {
    let client = fresh();
    let receipt = leaf("receipt", &[("id", "R"), ("from", "15551234567@s.whatsapp.net")]);
    assert_eq!(client.maybe_deferred_ack(&receipt, false), AckStep::Now { synchronous: false });
    assert_eq!(client.maybe_deferred_ack(&receipt, true), AckStep::Never);
    assert_eq!(client.maybe_deferred_ack(&leaf("receipt", &[]), false), AckStep::Never);
}

#[test]
fn quiet_clients_take_no_messages() {
    let mut client = fresh();
    let mut cancelled = false;
    let first = client.handle_message(message_stanza("1@s.whatsapp.net", "A"), &mut cancelled);
    assert!(first.known && first.worker.is_some() && !cancelled);
    assert!(!client.wait_for_inbound_quiescence());

    client.begin_inbound_quiesce();
    assert_eq!(client.lanes.len(), 0);
    let refused = client.handle_message(message_stanza("2@s.whatsapp.net", "B"), &mut cancelled);
    assert!(refused.known && refused.worker.is_none());
    assert!(cancelled, "the server is to send it again");

    client.give_up_message(message_stanza("1@s.whatsapp.net", "A").node());
    assert!(client.wait_for_inbound_quiescence());
}

#[test]
fn quiescence_waits_for_the_application() {
    let mut client = fresh();
    let mut cancelled = false;
    let from = "15551234567@s.whatsapp.net";
    let stanza = message_stanza(from, "M1");
    client.handle_message(message_stanza(from, "M1"), &mut cancelled);
    client.handle_message(message_stanza("1@s.whatsapp.net", "M2"), &mut cancelled);
    assert_eq!(client.inbound.pending(), 2);
    client.dispatch_message(&MessageEvent { message: Vec::new(), info: info(from, "M1", from) });
    client.begin_inbound_quiesce();

    assert!(matches!(
        client.finish_incoming_message(message_stanza("1@s.whatsapp.net", "M2").node()),
        FinishStep::Acknowledge { receipt: None }
    ));
    client.give_up_message(message_stanza("1@s.whatsapp.net", "M2").node());
    assert!(matches!(client.finish_incoming_message(stanza.node()), FinishStep::Wait));
    assert_eq!(client.inbound.pending(), 1);
    assert!(!client.wait_for_inbound_quiescence());

    assert!(client.acknowledge_inbound_message("M1"));
    assert!(!client.wait_for_inbound_quiescence());
    assert!(matches!(
        client.finish_incoming_message(stanza.node()),
        FinishStep::Acknowledge { receipt: Some(_) }
    ));
    assert!(client.wait_for_inbound_quiescence());
}

#[test]
fn requests_are_numbered() {
    let mut client = fresh();
    let prefix = client.unique_id.clone();
    assert_eq!(client.generate_request_id(), format!("{prefix}-0"));
    assert_eq!(client.generate_request_id(), format!("{prefix}-1"));
    client.id_counter = u64::MAX;
    assert_eq!(client.generate_request_id(), format!("{prefix}-18446744073709551615"));
    assert_eq!(client.id_counter, 0);
}

#[test]
fn filters_can_be_copied() {
    let filter = NodeFilter::tag("iq").attr("id", "A");
    let copy = filter.clone();
    let node = leaf("iq", &[("id", "A")]);
    assert!(copy.matches(&node) && filter.matches(&node));
    assert!(!copy.matches(&leaf("iq", &[("id", "B")])));
}

#[test]
fn test_undecryptable_deduped_across_resends() {
    let mut client = fresh();
    let info = info("5511999998888@s.whatsapp.net", "3AD01881AA95F7D81070", "85010891714716@lid");
    let chat = info.source.chat.clone();
    let sender = info.source.sender.clone();
    let (event, plan) = client.handle_decrypt_failure(&info, &chat, &sender, DecryptFailMode::Show, 0);
    match event {
        Some(event) => {
            assert_eq!(event.info.id, info.id);
            assert!(!event.is_unavailable);
        }
        None => panic!("the application should be told"),
    }
    assert_eq!(plan, RetryPlan::AskSender { count: 1, high: false, ask_primary: true });
    let (event, plan) = client.handle_decrypt_failure(&info, &chat, &sender, DecryptFailMode::Show, 0);
    assert!(event.is_none());
    assert_eq!(plan, RetryPlan::AskSender { count: 2, high: false, ask_primary: false });
}

#[test]
fn test_undecryptable_fires_before_retry_task() {
    let mut client = fresh();
    let info = info("5511999998888@s.whatsapp.net", "MSG_SYNC_1", "5511777776666@s.whatsapp.net");
    let (chat, sender) = (info.source.chat.clone(), info.source.sender.clone());
    let key = make_retry_cache_key(&chat, &info.id, &sender);
    assert!(client.inbound.retry_counts.get(&key, 0).is_none());
    let (event, plan) =
        client.handle_decrypt_failure(&info, &chat, &sender, DecryptFailMode::Show, 0);
    assert!(event.is_some(), "UndecryptableMessage dispatched inside handle_decrypt_failure");
    assert_eq!(plan, RetryPlan::AskSender { count: 1, high: false, ask_primary: true });
    assert_eq!(client.inbound.retry_counts.get(&key, 0), Some(1));
}

#[test]
fn test_undecryptable_event_has_no_pending_pdo_hint() {
    let event = UndecryptableMessage {
        info: info("5511999998888@s.whatsapp.net", "SHAPE_MSG", "5511777776666@s.whatsapp.net"),
        is_unavailable: false,
        unavailable_type: UnavailableType::Unknown,
        decrypt_fail_mode: DecryptFailMode::Show,
    };
    let UndecryptableMessage { info, is_unavailable, unavailable_type, decrypt_fail_mode } = event;
    assert_eq!(info.id, "SHAPE_MSG");
    assert!(!is_unavailable);
    assert_eq!(unavailable_type, UnavailableType::Unknown);
    assert_eq!(decrypt_fail_mode, DecryptFailMode::Show);
}

// Logins.

#[test]
fn only_the_first_login_of_a_connection_counts() {
    let mut link = Link::new();
    link.auto_reconnect_errors = 3;
    let success = leaf("success", &[("lid", "100000000000001@lid"), ("t", "1765482972")]);
    match link.handle_success(&success) {
        SuccessOutcome::LoggedIn { generation, lid, server_time } => {
            assert_eq!(generation, 1);
            assert_eq!(server_time, Some(1765482972));
            assert_eq!(lid.map(|lid| lid.user), Some("100000000000001".to_string()));
        }
        _ => panic!("the login should count"),
    }
    assert_eq!(link.auto_reconnect_errors, 0);
    assert!(matches!(link.handle_success(&success), SuccessOutcome::Duplicate));
    link.expected_disconnect = true;
    assert!(matches!(link.handle_success(&success), SuccessOutcome::Ignored));
    assert!(link.is_stale(0) && !link.is_stale(1));
}

#[test]
fn only_positive_numbers_are_times() {
    assert_eq!(server_time_of(&leaf("success", &[("t", "1765482972")])), Some(1765482972));
    assert_eq!(server_time_of(&leaf("success", &[])), None);
    for text in ["not_a_number", "0", "-1", ""] {
        assert_eq!(server_time_of(&leaf("success", &[("t", text)])), None, "{text}");
    }
}

fn facts(generation: u64) -> LoginFacts {
    LoginFacts {
        generation,
        is_connected: true,
        push_name_empty: false,
        needs_initial_full_sync: false,
        initial_keys_received: false,
        succeeded: true,
    }
}

fn run_login(mut login: PostLogin, facts: LoginFacts) -> Vec<LoginAction> {
    let mut actions = Vec::new();
    while login.stage != LoginStage::Done {
        actions.extend(login.step(facts));
    }
    actions
}

#[test]
fn logins_after_the_first_are_short() {
    let actions = run_login(PostLogin::new(1, false), facts(1));
    assert_eq!(
        actions,
        vec![
            LoginAction::SendUnifiedSession,
            LoginAction::EstablishPrimarySession,
            LoginAction::SyncOwnDevices,
            LoginAction::UploadPreKeys,
            LoginAction::LeavePassiveMode,
            LoginAction::WaitForOfflineEnd,
            LoginAction::SpawnBackgroundQueries,
            LoginAction::SendPresence,
            LoginAction::ResubscribePresence,
            LoginAction::DispatchConnected,
        ]
    );
}

#[test]
fn first_logins_wait_for_the_critical_sync() {
    let actions = run_login(PostLogin::new(1, true), facts(1));
    let sync = actions.iter().position(|a| *a == LoginAction::SyncCritical);
    let connected = actions.iter().position(|a| *a == LoginAction::DispatchConnected);
    assert!(sync.is_some() && sync < connected);
    assert!(actions.contains(&LoginAction::WaitForKeys));
    assert_eq!(actions.last(), Some(&LoginAction::SpawnRegularSync));

    let failed = run_login(PostLogin::new(1, true), LoginFacts { succeeded: false, ..facts(1) });
    assert!(!failed.contains(&LoginAction::DispatchConnected));
}

#[test]
fn stale_logins_do_nothing() {
    assert!(run_login(PostLogin::new(1, false), facts(2)).is_empty());
    assert!(!critical_watch_fires(1, 2, true));
    assert!(critical_watch_fires(2, 2, true));
    assert!(!critical_watch_fires(2, 2, false));
}

#[test]
fn changed_lids_are_noticed() {
    let old = jid("1@lid");
    let new = jid("2@lid");
    assert!(lid_changed(None, Some(&new)));
    assert!(lid_changed(Some(&old), Some(&new)));
    assert!(!lid_changed(Some(&old), Some(&old)));
    assert!(!lid_changed(Some(&old), None));
}

// Reading.

#[test]
fn batches_of_frames() {
    let mut link = Link::new();
    let mut reader = Reader::new();
    reader.begin_batch(&mut link, &vec![0, 0, 1, 7, 0, 0, 1, 8, 0], 100);
    assert_eq!(link.last_data_received_ms, 100);
    assert_eq!(reader.next_frame(), Some(vec![7]));
    assert_eq!(reader.frame_done(&link, 2), AfterFrame::GoOn { pause: false });
    assert_eq!(reader.next_frame(), Some(vec![8]));
    assert_eq!(reader.frame_done(&link, 2), AfterFrame::GoOn { pause: true });
    assert_eq!(reader.next_frame(), None);
    reader.end_batch(&mut link, 200);
    assert_eq!(link.last_data_received_ms, 200);

    reader.begin_batch(&mut link, &vec![0, 1, 9], -5);
    assert_eq!(link.last_data_received_ms, 0);
    assert_eq!(reader.next_frame(), Some(vec![9]));
    link.expected_disconnect = true;
    assert_eq!(reader.frame_done(&link, 0), AfterFrame::Stop);
    reader.end_batch(&mut link, 300);
    assert_eq!(link.last_data_received_ms, 0);
}

#[test]
fn permits_have_generations() {
    let mut link = Link::new();
    link.swap_message_semaphore(64);
    assert_eq!((link.message_permits, link.permit_generation), (64, 1));
    link.clean_up();
    assert_eq!((link.message_permits, link.permit_generation), (1, 2));
    link.data_sent(9);
    assert_eq!(link.last_data_sent_ms, 9);
}

// The account.

fn account() -> Account {
    Account {
        pn: Some(jid("15551234567:3@s.whatsapp.net")),
        lid: Some(jid("100000000000001:3@lid")),
        push_name: "me".to_string(),
        props_hash: None,
    }
}

#[test]
fn accounts_before_pairing() {
    let none = Account::new();
    assert!(none.get_pn().is_none() && none.get_lid().is_none());
    assert_eq!(none.get_push_name(), "");
    assert!(matches!(none.require_pn(), Err(ClientError::NotLoggedIn)));
    assert!(matches!(none.get_own_jid_for_group(None), Err(ClientError::NotLoggedIn)));
    assert!(!none.is_own_user(&jid("15551234567@s.whatsapp.net")));
}

#[test]
fn own_addresses_in_groups() {
    let account = account();
    let by = |mode| match account.get_own_jid_for_group(mode) {
        Ok(jid) => jid.to_text(),
        Err(e) => panic!("{e:?}"),
    };
    assert_eq!(by(Some(AddressingMode::Lid)), "100000000000001:3@lid");
    assert_eq!(by(Some(AddressingMode::Pn)), "15551234567:3@s.whatsapp.net");
    assert_eq!(by(None), "15551234567:3@s.whatsapp.net");
    assert_eq!(account.get_push_name(), "me");
    assert!(account.is_own_user(&jid("100000000000001:9@lid")));
}

#[test]
fn properties_are_fetched_by_change_once_there_are_some() {
    let mut account = account();
    assert_eq!(account.props_query(true), None);
    account.props_fetched(Some("h1".to_string()));
    assert_eq!(account.props_query(false), None);
    assert_eq!(account.props_query(true), Some("h1".to_string()));
    account.props_fetched(None);
    assert_eq!(account.props_query(true), Some("h1".to_string()));
}

#[test]
fn device_properties_are_for_pairing() {
    assert_eq!(Account::new().set_device_props(true), DevicePropsStep::Ignore);
    assert_eq!(Account::new().set_device_props(false), DevicePropsStep::Store { too_late: false });
    assert_eq!(account().set_device_props(false), DevicePropsStep::Store { too_late: true });
}

#[test]
fn edits_name_the_message_they_edit() {
    let content = waproto::whatsapp::Message {
        conversation: Some("better".to_string()),
        ..Default::default()
    };
    let group = jid("120363021033254949@g.us");
    let edited = match account().edit_message(
        &group,
        "ORIG",
        &content.encode_to_vec(),
        Some(AddressingMode::Lid),
        77,
    ) {
        Ok(edited) => edited,
        Err(e) => panic!("{e:?}"),
    };
    assert_eq!(edited.edit, EditAttribute::MessageEdit);
    let edit = match waproto::whatsapp::Message::decode(&edited.message[..]) {
        Ok(message) => message,
        Err(e) => panic!("{e}"),
    };
    let mut protocol = waproto::whatsapp::message::ProtocolMessage {
        key: Some(waproto::whatsapp::MessageKey {
            remote_jid: Some("120363021033254949@g.us".to_string()),
            from_me: Some(true),
            id: Some("ORIG".to_string()),
            participant: Some("100000000000001@lid".to_string()),
        }),
        edited_message: Some(Box::new(content)),
        timestamp_ms: Some(77),
        ..Default::default()
    };
    protocol.set_type(waproto::whatsapp::message::protocol_message::Type::MessageEdit);
    let expected = waproto::whatsapp::Message {
        edited_message: Some(Box::new(waproto::whatsapp::message::FutureProofMessage {
            message: Some(Box::new(waproto::whatsapp::Message {
                protocol_message: Some(Box::new(protocol)),
                ..Default::default()
            })),
        })),
        ..Default::default()
    };
    assert_eq!(edit, expected);
}

#[test]
fn edits_that_cannot_be_made() {
    let friend = jid("15557654321@s.whatsapp.net");
    assert!(matches!(
        Account::new().edit_message(&friend, "ORIG", &Vec::new(), None, 0),
        Err(EditError::NotLoggedIn)
    ));
    assert!(matches!(
        account().edit_message(&friend, "ORIG", &vec![255], None, 0),
        Err(EditError::BadContent)
    ));
    assert!(account().edit_message(&friend, "ORIG", &Vec::new(), None, 0).is_ok());
}

#[test]
fn typing_is_told() {
    let friend = jid("15557654321@s.whatsapp.net");
    let group = jid("120363021033254949@g.us");
    let typing = dispatch_chatstate_event(
        &ChatstateSource::User { from: friend.clone() },
        ReceivedChatState::Typing,
    );
    assert!(typing.source.chat.same_as(&friend) && typing.source.sender.same_as(&friend));
    assert!(!typing.source.is_group);
    assert_eq!((typing.state, typing.media), (ChatPresence::Composing, ChatPresenceMedia::Text));

    let recording = dispatch_chatstate_event(
        &ChatstateSource::Group { from: group.clone(), participant: friend.clone() },
        ReceivedChatState::RecordingAudio,
    );
    assert!(recording.source.chat.same_as(&group) && recording.source.sender.same_as(&friend));
    assert!(recording.source.is_group);
    assert_eq!((recording.state, recording.media), (ChatPresence::Composing, ChatPresenceMedia::Audio));

    let idle = dispatch_chatstate_event(
        &ChatstateSource::User { from: friend },
        ReceivedChatState::Idle,
    );
    assert_eq!((idle.state, idle.media), (ChatPresence::Paused, ChatPresenceMedia::Text));
}

#[test]
fn addresses_of_one_person_are_learned_either_way() {
    let pn = jid("559980000001@s.whatsapp.net");
    let lid = jid("100000012345678@lid");
    for (sender, alt, source) in [
        (&pn, &lid, LearningSource::PeerPnMessage),
        (&lid, &pn, LearningSource::PeerLidMessage),
    ] {
        match cache_lid_pn_from_message(sender, Some(alt)) {
            Some(mapping) => {
                assert_eq!(mapping.lid, "100000012345678");
                assert_eq!(mapping.pn, "559980000001");
                assert_eq!(mapping.source, source);
            }
            None => panic!("the addresses belong together"),
        }
    }
    assert!(cache_lid_pn_from_message(&pn, None).is_none());
    assert!(cache_lid_pn_from_message(&pn, Some(&pn)).is_none());
    assert!(cache_lid_pn_from_message(&jid("1@g.us"), Some(&pn)).is_none());
}

// Sizes.

#[test]
fn sizes_are_reported() {
    let mut client = fresh();
    client.wait_for_node(NodeFilter::tag("message"));
    client.register_ack_waiter("A");
    client.key_requests.insert("00", 1);
    client.syncing.insert(PatchName::Regular);
    let message = info("1@s.whatsapp.net", "M", "1@s.whatsapp.net");
    let chat = message.source.chat.clone();
    client.handle_decrypt_failure(&message, &chat, &chat, DecryptFailMode::Show, 0);
    let mut cancelled = false;
    client.handle_message(message_stanza("1@s.whatsapp.net", "A"), &mut cancelled);
    let sizes = client.memory_diagnostics(CacheSizes {
        group_cache: 1,
        device_registry_cache: 2,
        lid_pn_lid_entries: 3,
        lid_pn_pn_entries: 4,
        recent_messages: 5,
        sender_key_device_cache: 6,
        pdo_pending_requests: 7,
        session_locks: 8,
        pending_retries: 9,
        presence_subscriptions: 10,
        signal_cache_sessions: 11,
        signal_cache_identities: 12,
        signal_cache_sender_keys: 13,
        chatstate_handlers: 14,
        custom_enc_handlers: 15,
    });
    assert_eq!(
        sizes.to_text(),
        "=== Memory Diagnostics ===\n\
         --- Moka caches (TTL-bounded) ---\n\
         \x20 group_cache:            1\n\
         \x20 device_registry_cache:  2\n\
         \x20 lid_pn (lid):           3\n\
         \x20 lid_pn (pn):            4\n\
         \x20 recent_messages:        5\n\
         \x20 sk_device_cache:        6\n\
         \x20 message_retry_counts:   1\n\
         \x20 undec_dispatched:       1\n\
         \x20 pdo_pending_requests:   7\n\
         --- Moka caches (capacity-only) ---\n\
         \x20 session_locks:          8\n\
         \x20 chat_lanes:             1\n\
         --- Unbounded collections ---\n\
         \x20 response_waiters:       1\n\
         \x20 node_waiters:           1\n\
         \x20 pending_retries:        9\n\
         \x20 presence_subscriptions: 10\n\
         \x20 app_state_key_requests: 1\n\
         \x20 app_state_syncing:      1\n\
         \x20 signal_sessions:        11\n\
         \x20 signal_identities:      12\n\
         \x20 signal_sender_keys:     13\n\
         --- Misc ---\n\
         \x20 chatstate_handlers:     14\n\
         \x20 custom_enc_handlers:    15\n"
    );
}
