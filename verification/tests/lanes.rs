use wacore_binary::builder::NodeBuilder;
use whatsapp_rust::client::inbound::Inbound;
use whatsapp_rust::handlers::message::{
    create_chat_lane_queue, is_slow, settle_enqueue, worker_goes_on, ChatLanes, Enqueued,
    MessageHandler, CHAT_LANE_QUEUE_CAPACITY, MAX_MESSAGE_DELAY_MS,
};
use whatsapp_rust::jid::Jid;
use whatsapp_rust::wire::Stanza;

fn stanza(node: wacore_binary::Node) -> Stanza {
    let bytes = match wacore_binary::marshal::marshal(&node) {
        Ok(bytes) => bytes,
        Err(e) => panic!("{e}"),
    };
    match Stanza::decode(bytes[1..].to_vec()) {
        Some(stanza) => stanza,
        None => panic!("the bytes should be a stanza"),
    }
}

fn message(from: &str, id: &str) -> Stanza {
    stanza(NodeBuilder::new("message").attr("from", from).attr("id", id).build())
}

#[test]
fn per_chat_message_queue_rejects_capacity_plus_one() {
    let (sender, _receiver) = create_chat_lane_queue();
    for index in 0..CHAT_LANE_QUEUE_CAPACITY {
        let node = NodeBuilder::new("message").attr("id", index.to_string()).build();
        assert!(sender.try_send(stanza(node)).is_ok());
    }

    let overflow = NodeBuilder::new("message").attr("id", "overflow").build();
    assert!(matches!(
        sender.try_send(stanza(overflow)),
        Err(async_channel::TrySendError::Full(_))
    ));
}

#[test]
fn the_handler_takes_messages() {
    assert_eq!(MessageHandler::default().tag(), "message");
}

#[test]
fn devices_of_one_chat_share_a_lane() {
    let mut inbound = Inbound::new(1000, 1000);
    let mut lanes = ChatLanes::new(10);
    let mut cancelled = false;
    let first = MessageHandler.handle(
        &mut inbound,
        &mut lanes,
        message("15551234567:3@s.whatsapp.net", "A"),
        &mut cancelled,
    );
    let second = MessageHandler.handle(
        &mut inbound,
        &mut lanes,
        message("15551234567@s.whatsapp.net", "B"),
        &mut cancelled,
    );
    assert!(first.known && second.known && !cancelled);
    assert!(second.worker.is_none());
    assert_eq!(lanes.len(), 1);
    assert_eq!(inbound.pending(), 2);
    match first.worker {
        Some(receiver) => {
            for expected in ["A", "B"] {
                match receiver.try_recv() {
                    Ok(stanza) => {
                        assert_eq!(stanza.node().get_text("id"), Some(expected.to_string()))
                    }
                    Err(e) => panic!("{e}"),
                }
            }
        }
        None => panic!("a worker is to be started"),
    }
}

#[test]
fn full_lanes_cancel_the_acknowledgement() {
    let mut inbound = Inbound::new(1000, 1000);
    let mut lanes = ChatLanes::new(10);
    let mut cancelled = false;
    let mut workers = Vec::new();
    for i in 0..CHAT_LANE_QUEUE_CAPACITY {
        let handled = MessageHandler.handle(
            &mut inbound,
            &mut lanes,
            message("1@s.whatsapp.net", &i.to_string()),
            &mut cancelled,
        );
        workers.extend(handled.worker);
    }
    assert!(!cancelled);
    assert_eq!(workers.len(), 1);
    let handled = MessageHandler.handle(
        &mut inbound,
        &mut lanes,
        message("1@s.whatsapp.net", "overflow"),
        &mut cancelled,
    );
    assert!(handled.known && cancelled);
    assert_eq!(inbound.pending(), CHAT_LANE_QUEUE_CAPACITY);

    let mut other = false;
    let first =
        MessageHandler.handle(&mut inbound, &mut lanes, message("2@s.whatsapp.net", "x"), &mut other);
    assert!(!other && first.worker.is_some());
    drop(first);
    MessageHandler.handle(&mut inbound, &mut lanes, message("2@s.whatsapp.net", "y"), &mut other);
    assert!(other, "nobody takes stanzas out of a lane whose worker is gone");
}

#[test]
fn messages_without_sender_are_not_taken() {
    let mut inbound = Inbound::new(1000, 1000);
    let mut lanes = ChatLanes::new(10);
    let mut cancelled = false;
    let handled = MessageHandler.handle(
        &mut inbound,
        &mut lanes,
        stanza(NodeBuilder::new("message").attr("id", "A").build()),
        &mut cancelled,
    );
    assert!(!handled.known && !cancelled && handled.worker.is_none());
    assert_eq!(lanes.len(), 0);
}

#[test]
fn there_are_only_so_many_lanes() {
    let mut lanes = ChatLanes::new(2);
    let chats: Vec<Jid> = ["1", "2", "3"].iter().map(|user| Jid::pn(user)).collect();
    assert!(lanes.lane_for(&chats[0]).is_some());
    assert!(lanes.lane_for(&chats[0]).is_none());
    assert!(lanes.lane_for(&chats[1]).is_some());
    assert!(lanes.lane_for(&chats[2]).is_some());
    assert_eq!(lanes.len(), 2);
    assert!(lanes.lane_for(&chats[1]).is_none());
    assert!(lanes.lane_for(&chats[0]).is_some());
    lanes.clear();
    assert_eq!(lanes.len(), 0);

    let mut one = ChatLanes::new(0);
    assert!(one.lane_for(&chats[0]).is_some());
    assert!(one.lane_for(&chats[1]).is_some());
    assert_eq!(one.len(), 1);
}

#[test]
fn what_was_not_taken_comes_again() {
    for (enqueued, before, after, under_way) in [
        (Enqueued::Taken, false, false, 1),
        (Enqueued::Taken, true, true, 1),
        (Enqueued::Full, false, true, 0),
        (Enqueued::Closed, false, true, 0),
    ] {
        let mut inbound = Inbound::new(1000, 1000);
        let mut cancelled = before;
        settle_enqueue(&mut inbound, &mut cancelled, Some("A".to_string()), enqueued);
        assert_eq!(cancelled, after, "{enqueued:?}");
        assert_eq!(inbound.pending(), under_way, "{enqueued:?}");
    }
}

#[test]
fn workers_end_with_their_connection() {
    assert!(worker_goes_on(3, 3));
    assert!(!worker_goes_on(3, 4));
    assert!(!is_slow(MAX_MESSAGE_DELAY_MS));
    assert!(is_slow(MAX_MESSAGE_DELAY_MS + 1));
}
