use prost::Message;
use wacore_binary::builder::NodeBuilder;
use waproto::whatsapp as wa;
use whatsapp_rust::client::app_state::{
    collection_node, critical_collections, page_request, patch_request, regular_collections,
    sync_request, InFlight, PatchName,
};
use whatsapp_rust::client::keys::{
    dispatch_app_state_mutation, push_name_mutation, request_app_state_keys, stamp_missing_keys,
    unstamp_keys, update_push_name, Mutation, MutationEffect, KEY_REQUEST_LIFETIME_MS,
};
use whatsapp_rust::client::sync::{
    after_failed_attempt, batch_downloads, find_blob, page_downloads, BatchedSync, BlobError,
    CollectionError, CollectionStep, PagedSync, RetryStep, SyncFailure, MAX_BATCH_ITERATIONS,
    MAX_PAGINATION_ITERATIONS,
};
use whatsapp_rust::jid::Jid;
use whatsapp_rust::text_map::TextMap;

#[test]
fn collections_have_names() {
    for name in critical_collections().into_iter().chain(regular_collections()) {
        assert_eq!(PatchName::parse(name.as_str()), name);
    }
    assert_eq!(PatchName::parse("odd"), PatchName::Unknown);
    assert_eq!(PatchName::CriticalBlock.as_str(), "critical_block");
}

#[test]
fn collections_are_synced_by_one_task_at_a_time() {
    let mut busy = InFlight::new();
    assert!(busy.insert(PatchName::Regular));
    assert!(!busy.insert(PatchName::Regular));
    let wanted = vec![PatchName::Regular, PatchName::RegularLow, PatchName::RegularLow];
    let claimed = busy.claim(&wanted);
    assert_eq!(claimed, vec![PatchName::RegularLow]);
    assert_eq!(busy.len(), 2);
    busy.release(&claimed);
    assert!(busy.contains(PatchName::Regular) && !busy.contains(PatchName::RegularLow));
    busy.remove(PatchName::Regular);
    assert_eq!(busy.len(), 0);
    busy.insert(PatchName::Regular);
    busy.clear();
    assert!(!busy.contains(PatchName::Regular));
}

#[test]
fn collections_are_asked_for_whole_or_by_version() {
    let whole = collection_node(PatchName::Regular, 0, true);
    assert!(whole.attr_is("return_snapshot", "true") && !whole.has_attr("version"));
    let part = collection_node(PatchName::Regular, 17, false);
    assert!(part.attr_is("return_snapshot", "false") && part.attr_is("version", "17"));

    let request = sync_request(&vec![PatchName::Regular, PatchName::RegularLow], &vec![0, 9]);
    let children = request.get_children_by_tag("collection");
    assert_eq!(children.len(), 2);
    assert!(!children[0].has_attr("version"));
    assert!(children[1].attr_is("name", "regular_low") && children[1].attr_is("version", "9"));

    let page = page_request(PatchName::Regular, 4, false);
    assert!(page.get_children_by_tag("collection")[0].attr_is("version", "4"));

    let (patch, name) = patch_request("regular_high", 8, vec![1, 2]);
    assert_eq!(name, PatchName::RegularHigh);
    let collection = patch.get_children_by_tag("collection")[0];
    assert!(collection.attr_is("version", "8"));
    assert_eq!(
        collection.get_optional_child("patch").and_then(|node| node.content_bytes()),
        Some(&vec![1, 2])
    );
}

fn response(external: bool) -> Vec<u8> {
    let blob = wa::ExternalBlobReference {
        direct_path: Some("/snap".to_string()),
        ..Default::default()
    };
    let patch = wa::SyncdPatch {
        external_mutations: Some(wa::ExternalBlobReference {
            direct_path: Some("/patch".to_string()),
            ..Default::default()
        }),
        ..Default::default()
    };
    let mut children = Vec::new();
    if external {
        children.push(NodeBuilder::new("snapshot").bytes(blob.encode_to_vec()).build());
        children.push(
            NodeBuilder::new("patches")
                .children([NodeBuilder::new("patch").bytes(patch.encode_to_vec()).build()])
                .build(),
        );
    }
    let collection = NodeBuilder::new("collection")
        .attr("name", "regular")
        .attr("version", "1")
        .children(children)
        .build();
    let node = NodeBuilder::new("iq")
        .attr("type", "result")
        .children([NodeBuilder::new("sync").children([collection]).build()])
        .build();
    match wacore_binary::marshal::marshal(&node) {
        Ok(bytes) => bytes[1..].to_vec(),
        Err(e) => panic!("{e}"),
    }
}

#[test]
fn blobs_are_found_in_responses() {
    let paths = |buffer: &Vec<u8>| {
        let batch: Vec<String> = batch_downloads(buffer).into_iter().map(|d| d.path).collect();
        let page: Vec<String> = page_downloads(buffer).into_iter().map(|d| d.path).collect();
        (batch, page)
    };
    let expected = vec!["/snap".to_string(), "/patch".to_string()];
    assert_eq!(paths(&response(true)), (expected.clone(), expected));
    assert_eq!(paths(&response(false)), (Vec::new(), Vec::new()));
    assert_eq!(paths(&vec![255]), (Vec::new(), Vec::new()));
}

#[test]
fn blobs_are_looked_up_by_path() {
    let mut downloaded = TextMap::new();
    downloaded.insert("/a", vec![1]);
    assert_eq!(find_blob(&downloaded, Some("/a")), Ok(&vec![1]));
    assert_eq!(find_blob(&downloaded, Some("/b")), Err(BlobError::NotDownloaded));
    assert_eq!(find_blob(&downloaded, None), Err(BlobError::NoPath));
}

#[test]
fn batches_go_on_while_more_is_to_come() {
    let mut sync = BatchedSync::new(vec![PatchName::Regular, PatchName::RegularLow]);
    assert!(sync.begin_round(&vec![0, 5]));
    assert_eq!(
        sync.settle(PatchName::Regular, None, true),
        CollectionStep::Apply { full_sync: true, refetch: true }
    );
    assert_eq!(
        sync.settle(PatchName::RegularLow, None, false),
        CollectionStep::Apply { full_sync: false, refetch: false }
    );
    sync.end_round();
    assert_eq!(sync.pending, vec![PatchName::Regular]);
    assert!(sync.begin_round(&vec![3]));
    for (error, step) in [
        (CollectionError::Conflict { has_more: false }, CollectionStep::Drop),
        (CollectionError::Fatal, CollectionStep::Drop),
        (CollectionError::Conflict { has_more: true }, CollectionStep::Refetch),
        (CollectionError::Retry, CollectionStep::Refetch),
    ] {
        assert_eq!(sync.settle(PatchName::Regular, Some(error), true), step);
    }
    let mut rounds = 0;
    let mut endless = BatchedSync::new(vec![PatchName::Regular]);
    while endless.begin_round(&vec![1]) {
        endless.settle(PatchName::Regular, None, true);
        endless.end_round();
        rounds += 1;
    }
    assert_eq!(rounds, MAX_BATCH_ITERATIONS);
    let mut none = BatchedSync::new(Vec::new());
    assert!(!none.begin_round(&Vec::new()));
}

#[test]
fn pages_come_to_an_end() {
    assert!(PagedSync::begin(true, 7, true).is_none());
    let mut sync = PagedSync::begin(false, 0, false).expect("a sync");
    assert!(sync.full_sync && sync.want_snapshot);
    assert!(sync.begin_page(false));
    sync.end_page(4, false);
    assert!(sync.full_sync && !sync.want_snapshot);
    assert_eq!(sync.version, 4);
    assert!(!sync.begin_page(false));

    let mut cut_off = PagedSync::begin(false, 2, false).expect("a sync");
    assert!(cut_off.begin_page(false));
    assert!(!cut_off.page_came(true));
    assert!(!cut_off.begin_page(false));
    assert_eq!(cut_off.version, 2);

    let mut endless = PagedSync::begin(false, 3, false).expect("a sync");
    assert!(!endless.want_snapshot);
    assert!(endless.page_came(false) && endless.has_more);
    assert!(!endless.begin_page(true));
    let mut pages = 0;
    while endless.begin_page(false) {
        endless.end_page(5, true);
        pages += 1;
    }
    assert_eq!(pages, MAX_PAGINATION_ITERATIONS);
}

#[test]
fn failed_syncs_are_tried_again() {
    assert_eq!(after_failed_attempt(1, SyncFailure::KeyNotFound, false), RetryStep::WaitForKeys);
    assert_eq!(after_failed_attempt(1, SyncFailure::KeyNotFound, true), RetryStep::Again);
    assert_eq!(after_failed_attempt(2, SyncFailure::KeyNotFound, false), RetryStep::GiveUp);
    assert_eq!(after_failed_attempt(1, SyncFailure::StoreLocked, false), RetryStep::BackOff(350));
    assert_eq!(after_failed_attempt(5, SyncFailure::StoreLocked, false), RetryStep::BackOff(1150));
    assert_eq!(after_failed_attempt(6, SyncFailure::StoreLocked, false), RetryStep::GiveUp);
    assert_eq!(after_failed_attempt(1, SyncFailure::Other, true), RetryStep::GiveUp);
}

#[test]
fn keys_are_asked_for_once_a_day() {
    let mut stamps = TextMap::new();
    let keys = vec![vec![0xab, 0x01], vec![0xff]];
    assert_eq!(stamp_missing_keys(&mut stamps, &keys, 1000), keys);
    assert_eq!(stamps.get("ab01"), Some(&1000));
    assert!(stamp_missing_keys(&mut stamps, &keys, 1000 + KEY_REQUEST_LIFETIME_MS).is_empty());
    assert_eq!(stamp_missing_keys(&mut stamps, &keys, 1001 + KEY_REQUEST_LIFETIME_MS), keys);
    unstamp_keys(&mut stamps, &vec![vec![0xff]]);
    assert_eq!(stamp_missing_keys(&mut stamps, &keys, 1002 + KEY_REQUEST_LIFETIME_MS), vec![vec![0xff]]);
}

#[test]
fn keys_are_asked_for_by_message() {
    let own = Jid::pn("15551234567");
    let request = match request_app_state_keys(&vec![vec![1, 2]], Some(&own)) {
        Ok(Some(request)) => request,
        _ => panic!("there should be a request"),
    };
    assert!(request.to.same_as(&own));
    let message = match wa::Message::decode(&request.message[..]) {
        Ok(message) => message,
        Err(e) => panic!("{e}"),
    };
    let mut protocol = wa::message::ProtocolMessage {
        app_state_sync_key_request: Some(wa::message::AppStateSyncKeyRequest {
            key_ids: vec![wa::message::AppStateSyncKeyId { key_id: Some(vec![1, 2]) }],
        }),
        ..Default::default()
    };
    protocol.set_type(wa::message::protocol_message::Type::AppStateSyncKeyRequest);
    let expected =
        wa::Message { protocol_message: Some(Box::new(protocol)), ..Default::default() };
    assert_eq!(message, expected);
    assert!(matches!(request_app_state_keys(&Vec::new(), None), Ok(None)));
    assert!(request_app_state_keys(&vec![vec![1]], None).is_err());
}

fn mutation(index: &[&str], is_set: bool) -> Mutation {
    Mutation {
        index: index.iter().map(|part| part.to_string()).collect(),
        is_set,
        nct_salt: None,
        push_name: None,
    }
}

#[test]
fn changes_have_effects() {
    assert_eq!(dispatch_app_state_mutation(&mutation(&[], true)), MutationEffect::Ignored);
    assert_eq!(dispatch_app_state_mutation(&mutation(&["mute"], false)), MutationEffect::Ignored);
    assert_eq!(dispatch_app_state_mutation(&mutation(&["mute"], true)), MutationEffect::Delegate);
    let mut salt = mutation(&["nct_salt_sync"], true);
    assert_eq!(dispatch_app_state_mutation(&salt), MutationEffect::BadNctSalt);
    salt.nct_salt = Some(Vec::new());
    assert_eq!(dispatch_app_state_mutation(&salt), MutationEffect::BadNctSalt);
    salt.nct_salt = Some(vec![1]);
    assert_eq!(dispatch_app_state_mutation(&salt), MutationEffect::StoreNctSalt(vec![1]));
    salt.is_set = false;
    assert_eq!(dispatch_app_state_mutation(&salt), MutationEffect::ClearNctSalt);
}

#[test]
fn names_shown_to_others() {
    let mut change = mutation(&["setting_pushName"], true);
    assert!(push_name_mutation(&change, "").is_none());
    change.push_name = Some("me".to_string());
    match push_name_mutation(&change, "") {
        Some(update) => assert!(update.send_presence && update.new_name == "me"),
        None => panic!("the name is new"),
    }
    assert_eq!(push_name_mutation(&change, "old").map(|u| u.send_presence), Some(false));
    assert!(push_name_mutation(&change, "me").is_none());
    assert!(push_name_mutation(&mutation(&["other"], true), "").is_none());
    assert!(update_push_name("me", "me").is_none());
    assert_eq!(update_push_name("me", "you").map(|u| u.old_name), Some("me".to_string()));
}
