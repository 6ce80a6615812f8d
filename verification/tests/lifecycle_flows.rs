use auction_server::catalog::{Item, ItemStatus, Rating};
use auction_server::errors::ErrorKind;
use auction_server::handover::{HandoverAction, HandoverEvent, HandoverFlow, TransferError};
use auction_server::lifecycle::LifecycleError;
use auction_server::listing::{
    auction_end_at, delay_until, new_item_id, short_id, CreateItemRequest, ItemDetails,
    ListingAction, ListingError, ListingEvent, ListingFlow,
};
use auction_server::removal::{RemovalAction, RemovalEvent, RemovalFlow};
use auction_server::responses::{
    listing_response, removal_response, transfer_response, CreateItemResponse, LifecycleResponse,
};
use auction_server::retire::{RetireAction, RetireEvent};
use auction_server::transfers::{
    check_transferable, entries_about, names_item, TransferRecord, TransferRefusal,
};
use auction_server::upstream::{
    classify_holdings, classify_reply, judge, HoldingsVerdict, LedgerAnswer, LedgerVerdict,
};

fn reply(status: &str, operation_id: Option<&str>, message: &str) -> LedgerAnswer {
    LedgerAnswer::Reply {
        status: status.to_string(),
        operation_id: operation_id.map(|id| id.to_string()),
        message: message.to_string(),
    }
}

fn record(item_id: &str) -> TransferRecord {
    TransferRecord {
        item_id: item_id.to_string(),
        item_name: "Lamp".to_string(),
        price: "135".to_string(),
        seller: "sam".to_string(),
    }
}

#[test]
fn ledger_reply_is_read_by_its_status() {
    assert_eq!(
        classify_reply("pending", Some("op-1".to_string()), "queued".to_string()),
        LedgerVerdict::Pending { operation_id: Some("op-1".to_string()) }
    );
    assert_eq!(
        classify_reply("pending", None, String::new()),
        LedgerVerdict::Pending { operation_id: None }
    );
    assert_eq!(
        classify_reply("error", Some("op-1".to_string()), "not the owner".to_string()),
        LedgerVerdict::Rejected { message: "not the owner".to_string() }
    );
    assert_eq!(classify_reply("success", None, String::new()), LedgerVerdict::Unexpected);
    assert_eq!(classify_reply("PENDING", None, String::new()), LedgerVerdict::Unexpected);
    assert_eq!(classify_reply("", None, String::new()), LedgerVerdict::Unexpected);
}

#[test]
fn ledger_that_cannot_be_reached_or_read_is_an_upstream_failure() {
    assert_eq!(judge(LedgerAnswer::Unreachable), LedgerVerdict::Unreachable);
    assert_eq!(judge(LedgerAnswer::Unreadable), LedgerVerdict::Unreadable);
    assert_eq!(judge(reply("pending", Some("op"), "")).failure(), None);
    assert_eq!(judge(reply("error", None, "no")).failure(), Some(ErrorKind::InvalidInput));
    assert_eq!(judge(reply("what", None, "")).failure(), Some(ErrorKind::UpstreamFailure));
    assert_eq!(LedgerVerdict::Unreachable.failure(), Some(ErrorKind::UpstreamFailure));
    assert_eq!(LedgerVerdict::Unreadable.failure(), Some(ErrorKind::UpstreamFailure));
}

#[test]
fn holdings_reply_is_read_by_its_status() {
    assert_eq!(
        classify_holdings("success", Some(vec!["a".to_string()]), None),
        HoldingsVerdict::Listed { item_ids: vec!["a".to_string()] }
    );
    assert_eq!(classify_holdings("success", None, None), HoldingsVerdict::Incomplete);
    assert_eq!(
        classify_holdings("error", None, Some("no such user".to_string())),
        HoldingsVerdict::Rejected { message: "no such user".to_string() }
    );
    assert_eq!(
        classify_holdings("error", None, None),
        HoldingsVerdict::Rejected { message: "Unknown error".to_string() }
    );
    assert_eq!(classify_holdings("pending", None, None), HoldingsVerdict::Unexpected);
}

#[test]
fn item_is_transferable_only_while_it_waits_for_the_buyer() {
    assert_eq!(check_transferable(&vec![], "lamp"), Err(TransferRefusal::NothingWaiting));
    assert_eq!(
        check_transferable(&vec![record("vase")], "lamp"),
        Err(TransferRefusal::NotWaitingForUser)
    );
    assert_eq!(check_transferable(&vec![record("vase"), record("lamp")], "lamp"), Ok(()));
    assert_eq!(TransferRefusal::NothingWaiting.message(), "Item Not Available For Transfer");
    assert_eq!(
        TransferRefusal::NotWaitingForUser.message(),
        "Item Not Available For Transfer For User"
    );
    assert_eq!(TransferRefusal::NothingWaiting.kind().http_status(), 400);
}

#[test]
fn entries_about_an_item_are_chosen_by_their_item_id_field() {
    let entries = vec![
        "{\"item_id\":\"lamp\",\"price\":\"1\"}".to_string(),
        "{\"item_id\":\"vase\"}".to_string(),
        "not json".to_string(),
        "{\"item_id\":5}".to_string(),
        "{\"price\":\"lamp\"}".to_string(),
        "{ \"seller\": \"sam\", \"item_id\": \"lamp\" }".to_string(),
    ];
    assert_eq!(
        entries_about(&entries, "lamp"),
        vec![
            "{\"item_id\":\"lamp\",\"price\":\"1\"}".to_string(),
            "{ \"seller\": \"sam\", \"item_id\": \"lamp\" }".to_string(),
        ]
    );
    assert_eq!(entries_about(&entries, "chair"), Vec::<String>::new());
    assert_eq!(entries_about(&entries, "not json"), Vec::<String>::new());
}

#[test]
fn record_without_item_field_names_no_item() {
    assert!(names_item(&Some("lamp".to_string()), "lamp"));
    assert!(!names_item(&Some("lamp".to_string()), "vase"));
    assert!(!names_item(&None, "lamp"));
    assert!(!names_item(&None, ""));
}

fn finish_cleanup_of_item_without_list(flow: RemovalFlow) -> RemovalFlow {
    flow.advance(RemovalEvent::Cache { event: RetireEvent::Absent })
        .advance(RemovalEvent::Cache { event: RetireEvent::Stored })
        .advance(RemovalEvent::Cache { event: RetireEvent::Stored })
}

#[test]
fn deletion_asks_ledger_cleans_cache_then_deletes() {
    let flow = RemovalFlow::open("lamp", "sam");
    assert_eq!(
        flow.pending(),
        RemovalAction::RequestDeletion { item_id: "lamp".to_string(), seller: "sam".to_string() }
    );
    let flow = flow.advance(RemovalEvent::Ledger { answer: reply("pending", Some("op-3"), "") });
    assert_eq!(
        flow.pending(),
        RemovalAction::Cache { action: RetireAction::Get { key: "similar_items:lamp".to_string() } }
    );
    let flow = flow.advance(RemovalEvent::Cache {
        event: RetireEvent::Found { text: "vase".to_string() },
    });
    assert_eq!(
        flow.pending(),
        RemovalAction::Cache { action: RetireAction::Get { key: "similar_items:vase".to_string() } }
    );
    let flow = flow
        .advance(RemovalEvent::Cache { event: RetireEvent::Found { text: "lamp,bowl".to_string() } });
    assert_eq!(
        flow.pending(),
        RemovalAction::Cache {
            action: RetireAction::Put {
                key: "similar_items:vase".to_string(),
                value: "bowl".to_string(),
            },
        }
    );
    let flow = flow
        .advance(RemovalEvent::Cache { event: RetireEvent::Stored })
        .advance(RemovalEvent::Cache { event: RetireEvent::Stored })
        .advance(RemovalEvent::Cache { event: RetireEvent::Stored });
    assert_eq!(flow.pending(), RemovalAction::DeleteItem { item_id: "lamp".to_string() });
    let flow = flow.advance(RemovalEvent::ItemDeleted);
    assert!(flow.is_done());
    assert_eq!(flow.outcome(), Ok(Some("op-3".to_string())));
    assert_eq!(flow.pending(), RemovalAction::Finish { outcome: Ok(Some("op-3".to_string())) });
    assert_eq!(
        removal_response(&flow.outcome()),
        LifecycleResponse {
            status: "success".to_string(),
            operation_id: Some("op-3".to_string()),
            message: "Item Will Be Deleted Shortly".to_string(),
        }
    );
}

#[test]
fn deletion_refused_by_the_ledger_touches_nothing() {
    let flow = RemovalFlow::open("lamp", "sam")
        .advance(RemovalEvent::Ledger { answer: reply("error", None, "not the seller") });
    assert!(flow.is_done());
    let outcome = flow.outcome();
    assert_eq!(outcome, Err(LifecycleError::Rejected { message: "not the seller".to_string() }));
    assert_eq!(outcome.as_ref().unwrap_err().kind().http_status(), 400);
    let response = removal_response(&outcome);
    assert_eq!(response.status, "error");
    assert_eq!(response.operation_id, None);
    assert_eq!(response.message, "not the seller");
}

#[test]
fn deletion_fails_on_unknown_reply_and_on_unreachable_ledger() {
    let cases = [
        (reply("done", Some("op"), ""), LifecycleError::UnexpectedReply, "Unexpected blockchain response"),
        (LedgerAnswer::Unreachable, LifecycleError::LedgerUnreachable, "Failed to connect to blockchain API"),
        (LedgerAnswer::Unreadable, LifecycleError::LedgerUnreadable, "Failed to parse blockchain response"),
    ];
    for (answer, error, message) in cases {
        let flow = RemovalFlow::open("lamp", "sam").advance(RemovalEvent::Ledger { answer });
        let outcome = flow.outcome();
        assert_eq!(outcome, Err(error));
        assert_eq!(outcome.as_ref().unwrap_err().kind(), ErrorKind::UpstreamFailure);
        assert_eq!(removal_response(&outcome).message, message);
    }
}

#[test]
fn deletion_goes_on_when_clean_up_steps_fail() {
    let flow = RemovalFlow::open("lamp", "sam")
        .advance(RemovalEvent::Ledger { answer: reply("pending", Some("op-3"), "") })
        .advance(RemovalEvent::Cache { event: RetireEvent::ReadFailed })
        .advance(RemovalEvent::Cache { event: RetireEvent::StoreFailed })
        .advance(RemovalEvent::Cache { event: RetireEvent::StoreFailed });
    assert_eq!(flow.pending(), RemovalAction::DeleteItem { item_id: "lamp".to_string() });
    assert!(flow.cleanup.own_list_unread);
    let flow = flow.advance(RemovalEvent::ItemDeleted);
    assert_eq!(flow.outcome(), Ok(Some("op-3".to_string())));
}

#[test]
fn deletion_fails_when_the_store_cannot_delete() {
    let flow = RemovalFlow::open("lamp", "sam")
        .advance(RemovalEvent::Ledger { answer: reply("pending", Some("op-3"), "") });
    let flow = finish_cleanup_of_item_without_list(flow).advance(RemovalEvent::ItemDeleteFailed);
    let outcome = flow.outcome();
    assert_eq!(outcome, Err(LifecycleError::StoreFailure));
    assert_eq!(outcome.as_ref().unwrap_err().kind().http_status(), 500);
    let response = removal_response(&outcome);
    assert_eq!(response.message, "Failed to delete item from database");
    assert_eq!(response.operation_id, None);
}

#[test]
fn transfer_runs_from_list_check_to_clean_up() {
    let flow = HandoverFlow::open("lamp", "ann");
    assert_eq!(
        flow.pending(),
        HandoverAction::ReadWaiting { key: "transferring_items:ann".to_string() }
    );
    let flow = flow.advance(HandoverEvent::Waiting { records: vec![record("lamp")] });
    assert_eq!(
        flow.pending(),
        HandoverAction::RequestTransfer { item_id: "lamp".to_string(), buyer: "ann".to_string() }
    );
    let flow = flow.advance(HandoverEvent::Ledger { answer: reply("pending", Some("op-7"), "") });
    assert_eq!(
        flow.pending(),
        HandoverAction::ReadRawList { key: "transferring_items:ann".to_string() }
    );
    let entry = "{\"item_id\":\"lamp\",\"item_name\":\"Lamp\"}".to_string();
    let flow = flow.advance(HandoverEvent::RawList {
        entries: vec!["{\"item_id\":\"vase\"}".to_string(), entry.clone()],
    });
    assert_eq!(
        flow.pending(),
        HandoverAction::TrimList {
            key: "transferring_items:ann".to_string(),
            entries: vec![entry],
        }
    );
    let flow = flow.advance(HandoverEvent::ListTrimmed);
    assert_eq!(
        flow.pending(),
        HandoverAction::MarkItem { item_id: "lamp".to_string(), status: ItemStatus::SOLD }
    );
    let flow = flow.advance(HandoverEvent::ItemMarked);
    assert_eq!(
        flow.pending(),
        HandoverAction::Cache { action: RetireAction::Get { key: "similar_items:lamp".to_string() } }
    );
    let flow = flow
        .advance(HandoverEvent::Cache { event: RetireEvent::Absent })
        .advance(HandoverEvent::Cache { event: RetireEvent::Stored });
    assert!(!flow.is_done());
    assert_eq!(
        flow.pending(),
        HandoverAction::Cache { action: RetireAction::Delete { key: "item_details:lamp".to_string() } }
    );
    let flow = flow.advance(HandoverEvent::Cache { event: RetireEvent::Stored });
    assert!(flow.is_done());
    assert_eq!(flow.outcome(), Ok(Some("op-7".to_string())));
    assert_eq!(
        transfer_response(&flow.outcome()),
        LifecycleResponse {
            status: "success".to_string(),
            operation_id: Some("op-7".to_string()),
            message: "Item Transfer Initiated".to_string(),
        }
    );
}

#[test]
fn transfer_is_refused_when_the_item_does_not_wait() {
    let flow = HandoverFlow::open("lamp", "ann").advance(HandoverEvent::Waiting { records: vec![] });
    let outcome = flow.outcome();
    assert_eq!(outcome, Err(TransferError::Refused { refusal: TransferRefusal::NothingWaiting }));
    assert_eq!(outcome.as_ref().unwrap_err().kind(), ErrorKind::StateConflict);
    assert_eq!(transfer_response(&outcome).message, "Item Not Available For Transfer");
    let flow = HandoverFlow::open("lamp", "ann")
        .advance(HandoverEvent::Waiting { records: vec![record("vase")] });
    assert_eq!(
        flow.outcome(),
        Err(TransferError::Refused { refusal: TransferRefusal::NotWaitingForUser })
    );
    assert_eq!(
        transfer_response(&flow.outcome()).message,
        "Item Not Available For Transfer For User"
    );
}

#[test]
fn transfer_fails_when_the_list_cannot_be_read() {
    let flow = HandoverFlow::open("lamp", "ann").advance(HandoverEvent::WaitingUnread);
    let outcome = flow.outcome();
    assert_eq!(outcome, Err(TransferError::AvailabilityUnknown));
    assert_eq!(outcome.as_ref().unwrap_err().kind().http_status(), 500);
    assert_eq!(transfer_response(&outcome).message, "Failed to check item availability");
}

#[test]
fn transfer_goes_on_when_the_list_cannot_be_trimmed() {
    let flow = HandoverFlow::open("lamp", "ann")
        .advance(HandoverEvent::Waiting { records: vec![record("lamp")] })
        .advance(HandoverEvent::Ledger { answer: reply("pending", None, "") })
        .advance(HandoverEvent::RawListUnread);
    assert_eq!(
        flow.pending(),
        HandoverAction::MarkItem { item_id: "lamp".to_string(), status: ItemStatus::SOLD }
    );
    let flow = HandoverFlow::open("lamp", "ann")
        .advance(HandoverEvent::Waiting { records: vec![record("lamp")] })
        .advance(HandoverEvent::Ledger { answer: reply("pending", None, "") })
        .advance(HandoverEvent::RawList { entries: vec!["{\"item_id\":\"lamp\"}".to_string()] })
        .advance(HandoverEvent::ListTrimFailed);
    assert_eq!(
        flow.pending(),
        HandoverAction::MarkItem { item_id: "lamp".to_string(), status: ItemStatus::SOLD }
    );
    let flow = HandoverFlow::open("lamp", "ann")
        .advance(HandoverEvent::Waiting { records: vec![record("lamp")] })
        .advance(HandoverEvent::Ledger { answer: reply("pending", None, "") })
        .advance(HandoverEvent::RawList { entries: vec!["{\"item_id\":\"vase\"}".to_string()] });
    assert_eq!(
        flow.pending(),
        HandoverAction::MarkItem { item_id: "lamp".to_string(), status: ItemStatus::SOLD }
    );
}

#[test]
fn transfer_fails_when_the_item_cannot_be_marked_or_the_ledger_refuses() {
    let flow = HandoverFlow::open("lamp", "ann")
        .advance(HandoverEvent::Waiting { records: vec![record("lamp")] })
        .advance(HandoverEvent::Ledger { answer: reply("pending", Some("op"), "") })
        .advance(HandoverEvent::RawListUnread)
        .advance(HandoverEvent::ItemMarkFailed);
    assert_eq!(flow.outcome(), Err(TransferError::Failed { why: LifecycleError::StoreFailure }));
    assert_eq!(transfer_response(&flow.outcome()).message, "Failed to update item status");
    let flow = HandoverFlow::open("lamp", "ann")
        .advance(HandoverEvent::Waiting { records: vec![record("lamp")] })
        .advance(HandoverEvent::Ledger { answer: reply("error", None, "sold already") });
    assert_eq!(
        flow.outcome(),
        Err(TransferError::Failed {
            why: LifecycleError::Rejected { message: "sold already".to_string() },
        })
    );
    assert_eq!(transfer_response(&flow.outcome()).message, "sold already");
}

fn request() -> CreateItemRequest {
    CreateItemRequest {
        item_details: ItemDetails {
            title: "Brass Lamp".to_string(),
            description: "A lamp".to_string(),
            images: vec!["/tmp/lamp.jpg".to_string()],
            category: "Home LIGHTING".to_string(),
            base_price: 100,
        },
        seller: "sam".to_string(),
        auction_end: 3600,
    }
}

#[test]
fn listing_runs_from_images_to_index() {
    let flow = ListingFlow::open(&request(), "0123456789abcdef", 5_000);
    assert_eq!(
        flow.pending(),
        ListingAction::StoreImages {
            item_id: "0123456789abcdef".to_string(),
            images: vec!["/tmp/lamp.jpg".to_string()],
        }
    );
    let flow = flow.advance(ListingEvent::ImagesStored { urls: vec!["https://img/1".to_string()] });
    assert_eq!(
        flow.pending(),
        ListingAction::RequestListing {
            item_id: "0123456789abcdef".to_string(),
            seller: "sam".to_string(),
        }
    );
    let flow = flow.advance(ListingEvent::Ledger { answer: reply("pending", Some("op-2"), "") });
    assert_eq!(
        flow.pending(),
        ListingAction::InsertItem {
            item: Item {
                id: Some("0123456789abcdef".to_string()),
                title: "Brass Lamp".to_string(),
                description: "A lamp".to_string(),
                images: vec!["https://img/1".to_string()],
                category: "home lighting".to_string(),
                auction_end: 5_000,
                rating: Rating::PENDING,
                status: ItemStatus::PENDING,
                base_price: 100,
            },
        }
    );
    let flow = flow.advance(ListingEvent::ItemInserted);
    assert_eq!(
        flow.pending(),
        ListingAction::ScheduleTransfer {
            item_id: "0123456789abcdef".to_string(),
            item_name: "Brass Lamp".to_string(),
            auction_end: 5_000,
            seller: "sam".to_string(),
        }
    );
    let flow = flow.advance(ListingEvent::NotifyFailed);
    assert_eq!(
        flow.pending(),
        ListingAction::EnqueueRating {
            queue: "rate".to_string(),
            item_id: "0123456789abcdef".to_string(),
        }
    );
    let flow = flow.advance(ListingEvent::Notified);
    assert_eq!(
        flow.pending(),
        ListingAction::IndexItem {
            item_id: "0123456789abcdef".to_string(),
            item_name: "Brass Lamp".to_string(),
            category: "Home LIGHTING".to_string(),
        }
    );
    let flow = flow.advance(ListingEvent::NotifyFailed);
    assert!(flow.is_done());
    assert_eq!(flow.outcome(), Ok(Some("op-2".to_string())));
    assert_eq!(
        listing_response("0123456789abcdef", &flow.operation_id, &flow.outcome()),
        CreateItemResponse {
            status: "success".to_string(),
            item_id: "0123456789abcdef".to_string(),
            operation_id: Some("op-2".to_string()),
            message: "Item successfully submitted, it will shortly be up for auction".to_string(),
        }
    );
}

#[test]
fn listing_fails_when_images_cannot_be_stored() {
    let flow = ListingFlow::open(&request(), "id", 5_000)
        .advance(ListingEvent::ImagesFailed { message: "Upload Error: denied".to_string() });
    assert!(flow.is_done());
    let outcome = flow.outcome();
    assert_eq!(
        outcome,
        Err(ListingError::UploadFailed { message: "Upload Error: denied".to_string() })
    );
    assert_eq!(outcome.as_ref().unwrap_err().kind().http_status(), 500);
    let response = listing_response("id", &flow.operation_id, &outcome);
    assert_eq!(response.message, "Image upload failed: Upload Error: denied");
    assert_eq!(response.operation_id, None);
    assert_eq!(response.item_id, "id");
}

#[test]
fn listing_fails_on_ledger_trouble() {
    let cases = [
        (reply("error", None, "seller unknown"), "seller unknown", 400),
        (reply("queued", None, ""), "Unexpected blockchain response", 500),
        (LedgerAnswer::Unreachable, "Blockchain API submission failed", 500),
        (LedgerAnswer::Unreadable, "Failed to parse blockchain response", 500),
    ];
    for (answer, message, code) in cases {
        let flow = ListingFlow::open(&request(), "id", 5_000)
            .advance(ListingEvent::ImagesStored { urls: vec![] })
            .advance(ListingEvent::Ledger { answer });
        assert!(flow.is_done());
        let outcome = flow.outcome();
        assert_eq!(outcome.as_ref().unwrap_err().kind().http_status(), code);
        let response = listing_response("id", &flow.operation_id, &outcome);
        assert_eq!(response.status, "error");
        assert_eq!(response.message, message);
    }
}

#[test]
fn failed_insert_still_names_the_operation() {
    let flow = ListingFlow::open(&request(), "id", 5_000)
        .advance(ListingEvent::ImagesStored { urls: vec![] })
        .advance(ListingEvent::Ledger { answer: reply("pending", Some("op-2"), "") })
        .advance(ListingEvent::ItemInsertFailed { detail: "duplicate key".to_string() });
    let outcome = flow.outcome();
    assert_eq!(outcome, Err(ListingError::InsertFailed { detail: "duplicate key".to_string() }));
    assert_eq!(outcome.as_ref().unwrap_err().kind(), ErrorKind::StoreFailure);
    let response = listing_response("id", &flow.operation_id, &outcome);
    assert_eq!(response.operation_id, Some("op-2".to_string()));
    assert_eq!(response.message, "Failed to insert item into database: duplicate key");
}

#[test]
fn item_identifier_is_sixteen_characters_of_a_fresh_uuid() {
    let first = new_item_id();
    let second = new_item_id();
    assert_eq!(first.chars().count(), 16);
    assert_eq!(second.chars().count(), 16);
    assert_ne!(first, second);
    assert!(first.chars().all(|c| c == '-' || c.is_ascii_hexdigit()));
    assert_eq!(first.chars().nth(8), Some('-'));
    assert_eq!(first.chars().nth(13), Some('-'));
}

#[test]
fn short_id_keeps_at_most_sixteen_characters() {
    assert_eq!(short_id("6f1c2d3e-4a5b-4c6d-8e7f-001122334455"), "6f1c2d3e-4a5b-4c");
    assert_eq!(short_id("0123456789abcdef"), "0123456789abcdef");
    assert_eq!(short_id("short"), "short");
    assert_eq!(short_id(""), "");
    assert_eq!(short_id("ééééééééééééééééé"), "éééééééééééééééé");
}

#[test]
fn auction_end_is_start_plus_duration() {
    assert_eq!(auction_end_at(1_000, 60), Some(61_000));
    assert_eq!(auction_end_at(1_000, 0), Some(1_000));
    assert_eq!(auction_end_at(1_000, -1), Some(0));
    assert_eq!(auction_end_at(i64::MAX, 1), None);
    assert_eq!(auction_end_at(0, i64::MAX), None);
    assert_eq!(auction_end_at(-10, i64::MAX / 1000 + 1), None);
    assert_eq!(auction_end_at(i64::MIN, i64::MAX / 1000), Some(i64::MIN + (i64::MAX / 1000) * 1000));
}

#[test]
fn delay_is_held_to_the_range() {
    assert_eq!(delay_until(61_000, 1_000), 60_000);
    assert_eq!(delay_until(1_000, 61_000), -60_000);
    assert_eq!(delay_until(i64::MAX, -1), i64::MAX);
    assert_eq!(delay_until(i64::MIN, 1), i64::MIN);
    assert_eq!(delay_until(0, i64::MIN), i64::MAX);
}
