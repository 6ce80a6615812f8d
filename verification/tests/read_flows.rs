use auction_server::aggregates::{
    aggregate_failure_message, AggregateAction, AggregateError, AggregateEvent, AggregateKind,
    AggregateOutcome, CachedQuery,
};
use auction_server::batch::{BatchAction, BatchEvent};
use auction_server::catalog::{Item, ItemStatus, Rating};
use auction_server::errors::ErrorKind;
use auction_server::holdings::{
    judge_holdings, HoldingsAction, HoldingsAnswer, HoldingsError, HoldingsEvent, HoldingsFlow,
};
use auction_server::items::{ReadAction, ReadEvent};
use auction_server::page::{ItemPage, PageAction, PageError, PageEvent, PageFlow};
use auction_server::query::{
    limit_or_default, matched_field, request_from, search_request, QueryError, SearchRequest,
};
use auction_server::responses::AutocompleteResponse;

fn item(id: &str) -> Item {
    Item {
        id: Some(id.to_string()),
        title: format!("Item {}", id),
        description: String::new(),
        images: Vec::new(),
        category: "lamps".to_string(),
        auction_end: 1_700_000_000_000,
        rating: Rating::PENDING,
        status: ItemStatus::ACTIVE,
        base_price: 100,
    }
}

#[test]
fn cached_list_is_served_without_the_store() {
    let query = CachedQuery::home_page();
    assert_eq!(query.pending(), AggregateAction::ReadCache { key: "homepage:".to_string() });
    let query = query.advance(AggregateEvent::CacheHit);
    assert_eq!(query.pending(), AggregateAction::Finish { outcome: AggregateOutcome::FromCache });
}

#[test]
fn home_page_is_counted_computed_and_cached_for_a_minute() {
    let query = CachedQuery::home_page().advance(AggregateEvent::CacheMiss);
    assert_eq!(query.pending(), AggregateAction::CountEntries);
    let query = query.advance(AggregateEvent::Counted { count: 3 });
    assert_eq!(query.pending(), AggregateAction::Compute);
    let query = query.advance(AggregateEvent::Computed { rows: 2 });
    assert_eq!(
        query.pending(),
        AggregateAction::FillCache { key: "homepage:".to_string(), ttl_seconds: 60 }
    );
    let query = query.advance(AggregateEvent::CacheFilled);
    assert_eq!(query.pending(), AggregateAction::Finish { outcome: AggregateOutcome::Fresh });
}

#[test]
fn empty_list_is_not_cached() {
    let query = CachedQuery::home_page()
        .advance(AggregateEvent::CacheFailed)
        .advance(AggregateEvent::Counted { count: 0 });
    assert_eq!(query.pending(), AggregateAction::Finish { outcome: AggregateOutcome::Empty });
    let query = CachedQuery::named_category_items("lamps")
        .advance(AggregateEvent::CacheMiss)
        .advance(AggregateEvent::Counted { count: 5 })
        .advance(AggregateEvent::Computed { rows: 0 });
    assert_eq!(query.pending(), AggregateAction::Finish { outcome: AggregateOutcome::Empty });
}

#[test]
fn top_categories_are_not_counted_first() {
    let query = CachedQuery::top_categories(None);
    assert_eq!(query.pending(), AggregateAction::ReadCache { key: "top_categories:10".to_string() });
    let query = query.advance(AggregateEvent::CacheMiss);
    assert_eq!(query.pending(), AggregateAction::Compute);
    assert_eq!(
        CachedQuery::top_categories(Some(25)).pending(),
        AggregateAction::ReadCache { key: "top_categories:25".to_string() }
    );
    assert_eq!(
        CachedQuery::top_categories(Some(0)).pending(),
        AggregateAction::ReadCache { key: "top_categories:0".to_string() }
    );
    assert!(!AggregateKind::TopCategories.is_counted());
    assert!(AggregateKind::HomePage.is_counted());
    assert!(AggregateKind::CategoryItems.is_counted());
}

#[test]
fn category_is_read_in_lower_case() {
    assert_eq!(
        CachedQuery::category_items("Home LIGHTING").pending(),
        AggregateAction::ReadCache { key: "category_items:home lighting:".to_string() }
    );
    assert_eq!(
        CachedQuery::named_category_items("Lamps").pending(),
        AggregateAction::ReadCache { key: "category_items:Lamps:".to_string() }
    );
}

#[test]
fn failing_store_fails_the_list_with_its_own_words() {
    let query = CachedQuery::home_page()
        .advance(AggregateEvent::CacheMiss)
        .advance(AggregateEvent::CountFailed);
    assert_eq!(
        query.pending(),
        AggregateAction::Finish {
            outcome: AggregateOutcome::Failed { why: AggregateError::CountFailed },
        }
    );
    let query = CachedQuery::top_categories(None)
        .advance(AggregateEvent::CacheMiss)
        .advance(AggregateEvent::ComputeFailed);
    assert_eq!(
        query.pending(),
        AggregateAction::Finish {
            outcome: AggregateOutcome::Failed { why: AggregateError::ComputeFailed },
        }
    );
    assert_eq!(AggregateError::ComputeFailed.kind(), ErrorKind::StoreFailure);
    assert_eq!(
        aggregate_failure_message(AggregateKind::HomePage, AggregateError::CountFailed),
        "Failed to check for active items"
    );
    assert_eq!(
        aggregate_failure_message(AggregateKind::HomePage, AggregateError::ComputeFailed),
        "Failed to aggregate home data"
    );
    assert_eq!(
        aggregate_failure_message(AggregateKind::TopCategories, AggregateError::ComputeFailed),
        "Failed to retrieve top categories"
    );
    assert_eq!(
        aggregate_failure_message(AggregateKind::CategoryItems, AggregateError::CountFailed),
        "Failed to check category items"
    );
    assert_eq!(
        aggregate_failure_message(AggregateKind::CategoryItems, AggregateError::ComputeFailed),
        "Failed to retrieve category items"
    );
}

#[test]
fn page_shows_item_price_and_similar_items() {
    let lamp = item("lamp");
    let vase = item("vase");
    let bowl = item("bowl");
    let flow = PageFlow::open("lamp");
    assert_eq!(
        flow.pending(),
        PageAction::Details {
            action: ReadAction::ReadCache { key: "item_details:lamp".to_string() },
        }
    );
    let flow = flow.advance(PageEvent::Details { event: ReadEvent::CacheHit { item: lamp.clone() } });
    assert_eq!(flow.pending(), PageAction::ReadCurrentBid { key: "current_bid:lamp".to_string() });
    let flow = flow.advance(PageEvent::CurrentBidRead { bid_price: 135 });
    assert_eq!(flow.pending(), PageAction::ReadSimilar { key: "similar_items:lamp".to_string() });
    let flow = flow.advance(PageEvent::SimilarFound { text: "vase,bowl,ghost".to_string() });
    assert_eq!(
        flow.pending(),
        PageAction::Similar {
            call: BatchAction::ReadCache {
                keys: vec![
                    "item_details:vase".to_string(),
                    "item_details:bowl".to_string(),
                    "item_details:ghost".to_string(),
                ],
            },
        }
    );
    let flow = flow.advance(PageEvent::Similar {
        answer: BatchEvent::CacheValues { values: vec![Some(vase.clone()), None, None] },
    });
    assert_eq!(
        flow.pending(),
        PageAction::Similar {
            call: BatchAction::FindItems {
                item_ids: vec!["bowl".to_string(), "ghost".to_string()],
            },
        }
    );
    let flow = flow
        .advance(PageEvent::Similar { answer: BatchEvent::StoreItems { items: vec![bowl.clone()] } })
        .advance(PageEvent::Similar { answer: BatchEvent::CacheFilled });
    assert!(flow.is_done());
    assert_eq!(
        flow.outcome(),
        Ok(ItemPage {
            item_details: lamp,
            current_bid_price: 135,
            similar_items_details: vec![vase, bowl],
        })
    );
}

#[test]
fn page_without_bid_or_similar_items_shows_no_price_and_no_items() {
    let lamp = item("lamp");
    let flow = PageFlow::open("lamp")
        .advance(PageEvent::Details { event: ReadEvent::CacheMiss })
        .advance(PageEvent::Details { event: ReadEvent::StoreFound { item: lamp.clone() } })
        .advance(PageEvent::Details { event: ReadEvent::CacheFilled })
        .advance(PageEvent::CurrentBidAbsent)
        .advance(PageEvent::SimilarAbsent);
    assert!(flow.is_done());
    assert_eq!(
        flow.outcome(),
        Ok(ItemPage { item_details: lamp.clone(), current_bid_price: -1, similar_items_details: vec![] })
    );
    let flow = PageFlow::open("lamp")
        .advance(PageEvent::Details { event: ReadEvent::CacheHit { item: lamp.clone() } })
        .advance(PageEvent::CurrentBidFailed)
        .advance(PageEvent::SimilarFailed);
    assert_eq!(
        flow.outcome(),
        Ok(ItemPage { item_details: lamp, current_bid_price: -1, similar_items_details: vec![] })
    );
}

#[test]
fn page_of_unknown_item_is_not_found() {
    let flow = PageFlow::open("ghost")
        .advance(PageEvent::Details { event: ReadEvent::CacheMiss })
        .advance(PageEvent::Details { event: ReadEvent::StoreAbsent });
    assert!(flow.is_done());
    assert_eq!(flow.outcome(), Err(PageError::NotFound));
    assert_eq!(flow.pending(), PageAction::Finish { outcome: Err(PageError::NotFound) });
    assert_eq!(PageError::NotFound.kind().http_status(), 404);
}

#[test]
fn page_fails_when_the_store_cannot_give_similar_items() {
    let flow = PageFlow::open("lamp")
        .advance(PageEvent::Details { event: ReadEvent::CacheHit { item: item("lamp") } })
        .advance(PageEvent::CurrentBidAbsent)
        .advance(PageEvent::SimilarFound { text: "vase".to_string() })
        .advance(PageEvent::Similar { answer: BatchEvent::CacheFailed })
        .advance(PageEvent::Similar { answer: BatchEvent::StoreFailed });
    assert!(flow.is_done());
    assert_eq!(flow.outcome(), Err(PageError::StoreFailure));
    assert_eq!(PageError::StoreFailure.kind().http_status(), 500);
}

fn holdings_reply(status: &str, ids: Option<&[&str]>, message: Option<&str>) -> HoldingsAnswer {
    HoldingsAnswer::Reply {
        status: status.to_string(),
        item_ids: ids.map(|ids| ids.iter().map(|id| id.to_string()).collect()),
        message: message.map(|text| text.to_string()),
    }
}

#[test]
fn items_of_a_user_are_read_through_the_cache() {
    let lamp = item("lamp");
    let vase = item("vase");
    let flow = HoldingsFlow::open("ann");
    assert_eq!(flow.pending(), HoldingsAction::RequestHoldings { user_id: "ann".to_string() });
    let flow = flow.advance(HoldingsEvent::Ledger {
        answer: holdings_reply("success", Some(&["lamp", "vase"]), None),
    });
    assert_eq!(
        flow.pending(),
        HoldingsAction::Items {
            action: BatchAction::ReadCache {
                keys: vec!["item_details:lamp".to_string(), "item_details:vase".to_string()],
            },
        }
    );
    let flow = flow
        .advance(HoldingsEvent::Items {
            event: BatchEvent::CacheValues { values: vec![None, Some(vase.clone())] },
        })
        .advance(HoldingsEvent::Items { event: BatchEvent::StoreItems { items: vec![lamp.clone()] } })
        .advance(HoldingsEvent::Items { event: BatchEvent::CacheFilled });
    assert!(flow.is_done());
    assert_eq!(flow.outcome(), Ok(vec![vase, lamp]));
}

#[test]
fn user_without_items_gets_an_empty_list_at_once() {
    let flow = HoldingsFlow::open("ann")
        .advance(HoldingsEvent::Ledger { answer: holdings_reply("success", Some(&[]), None) });
    assert!(flow.is_done());
    assert_eq!(flow.outcome(), Ok(vec![]));
}

#[test]
fn ledger_trouble_fails_the_request_for_holdings() {
    let cases = [
        (holdings_reply("success", None, None), HoldingsError::Incomplete, "Blockchain response error", 500),
        (
            holdings_reply("error", None, Some("no such user")),
            HoldingsError::Rejected { message: "no such user".to_string() },
            "no such user",
            400,
        ),
        (
            holdings_reply("error", None, None),
            HoldingsError::Rejected { message: "Unknown error".to_string() },
            "Unknown error",
            400,
        ),
        (
            holdings_reply("later", None, None),
            HoldingsError::Unexpected,
            "Unexpected status in blockchain response",
            500,
        ),
        (
            HoldingsAnswer::Unreachable { detail: "refused".to_string() },
            HoldingsError::Unreachable { detail: "refused".to_string() },
            "Blockchain API submission failed: refused",
            500,
        ),
        (
            HoldingsAnswer::Unreadable { detail: "eof".to_string() },
            HoldingsError::Unreadable { detail: "eof".to_string() },
            "Failed to parse blockchain response: eof",
            500,
        ),
    ];
    for (answer, error, message, code) in cases {
        let flow = HoldingsFlow::open("ann").advance(HoldingsEvent::Ledger { answer });
        assert!(flow.is_done());
        let outcome = flow.outcome();
        assert_eq!(outcome, Err(error));
        let why = outcome.unwrap_err();
        assert_eq!(why.message(), message);
        assert_eq!(why.kind().http_status(), code);
    }
}

#[test]
fn failing_store_fails_the_holdings() {
    let flow = HoldingsFlow::open("ann")
        .advance(HoldingsEvent::Ledger { answer: holdings_reply("success", Some(&["lamp"]), None) })
        .advance(HoldingsEvent::Items { event: BatchEvent::CacheFailed })
        .advance(HoldingsEvent::Items { event: BatchEvent::StoreFailed });
    assert_eq!(flow.outcome(), Err(HoldingsError::StoreFailure));
    assert_eq!(HoldingsError::StoreFailure.message(), "MongoDB query failed");
    assert_eq!(
        judge_holdings(holdings_reply("success", Some(&["a"]), None)),
        Ok(vec!["a".to_string()])
    );
}

#[test]
fn search_needs_a_query_that_is_not_blank() {
    assert_eq!(search_request(None, None), Err(QueryError::MissingQuery));
    assert_eq!(search_request(Some(""), Some("5")), Err(QueryError::MissingQuery));
    assert_eq!(search_request(Some("  \t\n "), None), Err(QueryError::MissingQuery));
    assert_eq!(QueryError::MissingQuery.message(), "Missing or empty query parameter");
    assert_eq!(QueryError::MissingQuery.kind().http_status(), 400);
}

#[test]
fn search_passes_the_query_on_as_given_and_reads_the_limit() {
    assert_eq!(
        search_request(Some(" brass lamp "), Some("25")),
        Ok(SearchRequest { query: " brass lamp ".to_string(), limit: 25 })
    );
    assert_eq!(
        search_request(Some("lamp"), None),
        Ok(SearchRequest { query: "lamp".to_string(), limit: 10 })
    );
    for limit in ["", "-1", "ten", " 5", "1.5", "99999999999999999999999999"] {
        assert_eq!(
            search_request(Some("lamp"), Some(limit)),
            Ok(SearchRequest { query: "lamp".to_string(), limit: 10 })
        );
    }
    assert_eq!(search_request(Some("lamp"), Some("0")).unwrap().limit, 0);
}

#[test]
fn request_is_built_from_what_was_read() {
    assert_eq!(limit_or_default(Some(3)), 3);
    assert_eq!(limit_or_default(None), 10);
    assert_eq!(
        request_from(Some("lamp"), false, Some(7)),
        Ok(SearchRequest { query: "lamp".to_string(), limit: 7 })
    );
    assert_eq!(request_from(Some("lamp"), true, Some(7)), Err(QueryError::MissingQuery));
    assert_eq!(request_from(None, false, None), Err(QueryError::MissingQuery));
}

#[test]
fn suggestion_names_the_matched_field() {
    assert_eq!(matched_field(true), "category");
    assert_eq!(matched_field(false), "name");
    assert_eq!(
        AutocompleteResponse::new("lamp", "Brass Lamp", true),
        AutocompleteResponse {
            item_id: "lamp".to_string(),
            item_name: "Brass Lamp".to_string(),
            matched_field: "category".to_string(),
        }
    );
}
