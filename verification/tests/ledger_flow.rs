use auction_server::catalog::ItemStatus;
use auction_server::errors::ErrorKind;
use auction_server::ledger::{Bid, BidAction, BidError, BidEvent, BidFlow, CurrentBid};
use auction_server::responses::PlaceBidResponse;
use std::collections::HashMap;

struct Market {
    items: HashMap<String, (ItemStatus, i64)>,
    log: Vec<(String, String, i64)>,
    cache: HashMap<String, CurrentBid>,
    announced: Vec<(String, i64)>,
}

impl Market {
    fn with_item(item_id: &str, status: ItemStatus, base_price: i64) -> Market {
        let mut items = HashMap::new();
        items.insert(item_id.to_string(), (status, base_price));
        Market { items, log: Vec::new(), cache: HashMap::new(), announced: Vec::new() }
    }

    fn place_bid(&mut self, item_id: &str, bidder: &str, increment: i64) -> Result<i64, BidError> {
        let mut flow = BidFlow::open(item_id, bidder, increment);
        loop {
            let event = match flow.pending() {
                BidAction::FindItem { item_id } => match self.items.get(&item_id) {
                    Some((status, base_price)) => {
                        BidEvent::ItemFound { status: *status, base_price: *base_price }
                    }
                    None => BidEvent::ItemAbsent,
                },
                BidAction::FindAnyBid { item_id } => {
                    if self.log.iter().any(|bid| bid.0 == item_id) {
                        BidEvent::LogHasBids
                    } else {
                        BidEvent::LogEmpty
                    }
                }
                BidAction::ReadCurrentBid { key } => match self.cache.get(&key) {
                    Some(bid) => BidEvent::CurrentBidRead { bid_price: bid.bid_price },
                    None => BidEvent::CurrentBidAbsent,
                },
                BidAction::WriteCurrentBid { key, bid } => {
                    self.cache.insert(key, bid);
                    BidEvent::CurrentBidWritten
                }
                BidAction::AppendBid { item_id, bidder, bid_price } => {
                    self.log.push((item_id, bidder, bid_price));
                    BidEvent::BidAppended
                }
                BidAction::Publish { channel, price } => {
                    self.announced.push((channel, price));
                    BidEvent::Published
                }
                BidAction::Finish { outcome } => return outcome,
            };
            flow = flow.advance(event);
        }
    }
}

#[test]
fn bidding_sequence_records_each_price() {
    let mut market = Market::with_item("lamp", ItemStatus::ACTIVE, 100);
    assert_eq!(market.place_bid("lamp", "ann", 20), Ok(100));
    assert_eq!(market.place_bid("lamp", "bob", 20), Ok(120));
    assert_eq!(market.place_bid("lamp", "ann", 15), Ok(135));
    let prices: Vec<i64> = market.log.iter().map(|bid| bid.2).collect();
    assert_eq!(prices, vec![100, 120, 135]);
    let leading = market.cache.get("current_bid:lamp").unwrap();
    assert_eq!(leading.bid_price, 135);
    assert_eq!(leading.bidder, "ann");
    assert_eq!(
        market.announced,
        vec![("lamp".to_string(), 100), ("lamp".to_string(), 120), ("lamp".to_string(), 135)]
    );
}

#[test]
fn first_bid_is_placed_at_base_price_whatever_the_increment() {
    let mut market = Market::with_item("vase", ItemStatus::ACTIVE, 250);
    assert_eq!(market.place_bid("vase", "ann", 7), Ok(250));
    assert_eq!(market.log, vec![("vase".to_string(), "ann".to_string(), 250)]);
}

#[test]
fn later_bid_adds_increment_to_leading_price() {
    let mut market = Market::with_item("vase", ItemStatus::ACTIVE, 250);
    assert_eq!(market.place_bid("vase", "ann", 7), Ok(250));
    assert_eq!(market.place_bid("vase", "bob", 1), Ok(251));
    assert_eq!(market.cache.get("current_bid:vase").unwrap().bid_price, 251);
}

#[test]
fn increment_that_is_not_positive_is_invalid_input() {
    let mut market = Market::with_item("lamp", ItemStatus::ACTIVE, 100);
    assert_eq!(market.place_bid("lamp", "ann", 0), Err(BidError::InvalidIncrement));
    assert_eq!(market.place_bid("lamp", "ann", -5), Err(BidError::InvalidIncrement));
    assert_eq!(market.place_bid("nothing", "ann", 0), Err(BidError::InvalidIncrement));
    assert_eq!(BidError::InvalidIncrement.kind(), ErrorKind::InvalidInput);
    assert_eq!(BidError::InvalidIncrement.kind().http_status(), 400);
    assert!(market.log.is_empty());
    assert!(market.cache.is_empty());
}

#[test]
fn bid_on_item_that_is_not_active_is_a_state_conflict() {
    for status in [
        ItemStatus::PENDING,
        ItemStatus::TRANSFERRING,
        ItemStatus::SOLD,
        ItemStatus::UNSOLD,
    ] {
        let mut market = Market::with_item("lamp", status, 100);
        assert_eq!(market.place_bid("lamp", "ann", 10), Err(BidError::ItemNotBiddable));
        assert!(market.log.is_empty());
    }
    assert_eq!(BidError::ItemNotBiddable.kind(), ErrorKind::StateConflict);
    assert_eq!(BidError::ItemNotBiddable.kind().http_status(), 400);
}

#[test]
fn bid_on_unknown_item_is_not_found() {
    let mut market = Market::with_item("lamp", ItemStatus::ACTIVE, 100);
    assert_eq!(market.place_bid("chair", "ann", 10), Err(BidError::ItemNotFound));
    assert_eq!(BidError::ItemNotFound.kind(), ErrorKind::NotFound);
    assert_eq!(BidError::ItemNotFound.kind().http_status(), 404);
}

#[test]
fn missing_leading_price_after_a_logged_bid_is_a_divergence() {
    let mut market = Market::with_item("lamp", ItemStatus::ACTIVE, 100);
    assert_eq!(market.place_bid("lamp", "ann", 10), Ok(100));
    market.cache.clear();
    assert_eq!(market.place_bid("lamp", "bob", 10), Err(BidError::CurrentBidMissing));
    assert_eq!(BidError::CurrentBidMissing.kind(), ErrorKind::CacheDivergence);
    assert_eq!(market.log.len(), 1);
}

fn flow_at_cache_write() -> BidFlow {
    let flow = BidFlow::open("lamp", "ann", 10);
    let flow = flow.advance(BidEvent::ItemFound { status: ItemStatus::ACTIVE, base_price: 100 });
    flow.advance(BidEvent::LogEmpty)
}

#[test]
fn failing_cache_write_ends_the_bid_before_the_log_is_touched() {
    let flow = flow_at_cache_write();
    assert_eq!(
        flow.pending(),
        BidAction::WriteCurrentBid {
            key: "current_bid:lamp".to_string(),
            bid: CurrentBid { bid_price: 100, bidder: "ann".to_string() },
        }
    );
    let flow = flow.advance(BidEvent::CurrentBidWriteFailed);
    assert_eq!(flow.outcome(), Some(Err(BidError::CacheWriteFailed)));
    assert_eq!(flow.pending(), BidAction::Finish { outcome: Err(BidError::CacheWriteFailed) });
    assert_eq!(BidError::CacheWriteFailed.kind().http_status(), 500);
}

#[test]
fn failing_append_fails_the_bid_after_the_cache_write() {
    let flow = flow_at_cache_write().advance(BidEvent::CurrentBidWritten);
    assert_eq!(
        flow.pending(),
        BidAction::AppendBid {
            item_id: "lamp".to_string(),
            bidder: "ann".to_string(),
            bid_price: 100,
        }
    );
    let flow = flow.advance(BidEvent::BidAppendFailed);
    assert_eq!(flow.outcome(), Some(Err(BidError::LogAppendFailed)));
    assert_eq!(BidError::LogAppendFailed.kind(), ErrorKind::StoreFailure);
}

#[test]
fn failing_announcement_does_not_fail_the_bid() {
    let flow = flow_at_cache_write()
        .advance(BidEvent::CurrentBidWritten)
        .advance(BidEvent::BidAppended);
    assert_eq!(flow.pending(), BidAction::Publish { channel: "lamp".to_string(), price: 100 });
    let flow = flow.advance(BidEvent::PublishFailed);
    assert_eq!(flow.outcome(), Some(Ok(100)));
}

#[test]
fn store_and_cache_read_failures_end_the_bid() {
    let flow = BidFlow::open("lamp", "ann", 10).advance(BidEvent::ItemLookupFailed);
    assert_eq!(flow.outcome(), Some(Err(BidError::StoreReadFailed)));
    let flow = BidFlow::open("lamp", "ann", 10)
        .advance(BidEvent::ItemFound { status: ItemStatus::ACTIVE, base_price: 100 })
        .advance(BidEvent::LogProbeFailed);
    assert_eq!(flow.outcome(), Some(Err(BidError::StoreReadFailed)));
    let flow = BidFlow::open("lamp", "ann", 10)
        .advance(BidEvent::ItemFound { status: ItemStatus::ACTIVE, base_price: 100 })
        .advance(BidEvent::LogHasBids);
    assert_eq!(flow.pending(), BidAction::ReadCurrentBid { key: "current_bid:lamp".to_string() });
    let flow = flow.advance(BidEvent::CurrentBidReadFailed);
    assert_eq!(flow.outcome(), Some(Err(BidError::CacheReadFailed)));
    assert_eq!(BidError::CacheReadFailed.kind(), ErrorKind::CacheFailure);
}

#[test]
fn price_beyond_the_range_is_refused() {
    let flow = BidFlow::open("lamp", "ann", 10)
        .advance(BidEvent::ItemFound { status: ItemStatus::ACTIVE, base_price: 100 })
        .advance(BidEvent::LogHasBids)
        .advance(BidEvent::CurrentBidRead { bid_price: i64::MAX - 9 });
    assert_eq!(flow.outcome(), Some(Err(BidError::PriceOutOfRange)));
    let flow = BidFlow::open("lamp", "ann", 10)
        .advance(BidEvent::ItemFound { status: ItemStatus::ACTIVE, base_price: 100 })
        .advance(BidEvent::LogHasBids)
        .advance(BidEvent::CurrentBidRead { bid_price: i64::MAX - 10 });
    assert_eq!(flow.outcome(), None);
    assert_eq!(
        flow.pending(),
        BidAction::WriteCurrentBid {
            key: "current_bid:lamp".to_string(),
            bid: CurrentBid { bid_price: i64::MAX, bidder: "ann".to_string() },
        }
    );
}

#[test]
fn event_that_answers_no_pending_call_changes_nothing() {
    let flow = BidFlow::open("lamp", "ann", 10);
    assert_eq!(flow.pending(), BidAction::FindItem { item_id: "lamp".to_string() });
    let flow = flow.advance(BidEvent::BidAppended);
    assert_eq!(flow.pending(), BidAction::FindItem { item_id: "lamp".to_string() });
    let flow = flow.advance(BidEvent::ItemAbsent).advance(BidEvent::Published);
    assert_eq!(flow.outcome(), Some(Err(BidError::ItemNotFound)));
}

#[test]
fn bid_errors_carry_their_messages() {
    assert_eq!(BidError::InvalidIncrement.message(), "Invalid incrementation to bid price");
    assert_eq!(BidError::ItemNotFound.message(), "Item not found");
    assert_eq!(BidError::ItemNotBiddable.message(), "Item is not available for bidding");
    assert_eq!(
        BidError::CurrentBidMissing.message(),
        "Bids not found despite not being initial bid"
    );
    assert_eq!(BidError::StoreReadFailed.message(), "Database error");
    assert_eq!(BidError::CacheReadFailed.message(), "Failed to retrieve current bid");
    assert_eq!(BidError::CacheWriteFailed.message(), "Failed to store bid in cache");
    assert_eq!(BidError::LogAppendFailed.message(), "Failed to record bid");
}

#[test]
fn bid_record_has_no_identifier_of_its_own() {
    let bid = Bid::record("lamp", "ann", 120, 1_700_000_000_000);
    assert_eq!(bid.id, None);
    assert_eq!(bid.item_id, "lamp");
    assert_eq!(bid.bidder, "ann");
    assert_eq!(bid.bid_price, 120);
    assert_eq!(bid.timestamp, 1_700_000_000_000);
}

#[test]
fn bid_response_reports_outcome() {
    let placed = PlaceBidResponse::from_outcome(&Ok(135));
    assert_eq!(placed.status, "success");
    assert_eq!(placed.message, "Bid placed successfully");
    let refused = PlaceBidResponse::from_outcome(&Err(BidError::ItemNotBiddable));
    assert_eq!(refused.status, "error");
    assert_eq!(refused.message, "Item is not available for bidding");
}

#[test]
fn overlapping_bids_are_both_logged_and_the_last_writer_leads() {
    let mut market = Market::with_item("lamp", ItemStatus::ACTIVE, 100);
    assert_eq!(market.place_bid("lamp", "ann", 5), Ok(100));
    let read = |bidder: &str, increment: i64| {
        BidFlow::open("lamp", bidder, increment)
            .advance(BidEvent::ItemFound { status: ItemStatus::ACTIVE, base_price: 100 })
            .advance(BidEvent::LogHasBids)
            .advance(BidEvent::CurrentBidRead { bid_price: 100 })
    };
    let first = read("bob", 30);
    let second = read("cid", 10);
    let first = first
        .advance(BidEvent::CurrentBidWritten)
        .advance(BidEvent::BidAppended)
        .advance(BidEvent::Published);
    let second = second
        .advance(BidEvent::CurrentBidWritten)
        .advance(BidEvent::BidAppended)
        .advance(BidEvent::Published);
    assert_eq!(first.outcome(), Some(Ok(130)));
    assert_eq!(second.outcome(), Some(Ok(110)));
}
