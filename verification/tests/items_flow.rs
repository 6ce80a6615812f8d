use auction_server::batch::{
    cache_fills, detail_keys, is_among, missing_ids, present_items, BatchAction, BatchEvent,
    CacheFill, ItemsRead,
};
use auction_server::catalog::{Item, ItemStatus, Rating};
use auction_server::items::{ItemRead, ReadAction, ReadEvent, ITEM_DETAILS_TTL_SECONDS};
use std::collections::HashMap;

fn item(id: &str, title: &str) -> Item {
    Item {
        id: Some(id.to_string()),
        title: title.to_string(),
        description: format!("about {}", title),
        images: vec![format!("https://img/{}.jpg", id)],
        category: "lamps".to_string(),
        auction_end: 1_700_000_000_000,
        rating: Rating::THREE,
        status: ItemStatus::ACTIVE,
        base_price: 100,
    }
}

struct Shelf {
    store: HashMap<String, Item>,
    cache: HashMap<String, Item>,
    store_reads: usize,
    fills: Vec<(String, u64)>,
}

impl Shelf {
    fn with(items: &[Item]) -> Shelf {
        let store =
            items.iter().map(|item| (item.id.clone().unwrap(), item.clone())).collect();
        Shelf { store, cache: HashMap::new(), store_reads: 0, fills: Vec::new() }
    }

    fn get_item(&mut self, item_id: &str) -> Option<Item> {
        let mut read = ItemRead::open(item_id);
        loop {
            let event = match read.pending() {
                ReadAction::ReadCache { key } => match self.cache.get(&key) {
                    Some(item) => ReadEvent::CacheHit { item: item.clone() },
                    None => ReadEvent::CacheMiss,
                },
                ReadAction::FindItem { item_id } => {
                    self.store_reads += 1;
                    match self.store.get(&item_id) {
                        Some(item) => ReadEvent::StoreFound { item: item.clone() },
                        None => ReadEvent::StoreAbsent,
                    }
                }
                ReadAction::FillCache { key, item, ttl_seconds } => {
                    self.fills.push((key.clone(), ttl_seconds));
                    self.cache.insert(key, item);
                    ReadEvent::CacheFilled
                }
                ReadAction::Finish { found } => return found,
            };
            read = read.advance(event);
        }
    }

    fn get_items(&mut self, ids: &[&str]) -> Option<Vec<Item>> {
        let mut read = ItemsRead::open(ids.iter().map(|id| id.to_string()).collect());
        loop {
            let event = match read.pending() {
                BatchAction::ReadCache { keys } => BatchEvent::CacheValues {
                    values: keys.iter().map(|key| self.cache.get(key).cloned()).collect(),
                },
                BatchAction::FindItems { item_ids } => {
                    self.store_reads += 1;
                    BatchEvent::StoreItems {
                        items: item_ids
                            .iter()
                            .filter_map(|id| self.store.get(id).cloned())
                            .collect(),
                    }
                }
                BatchAction::FillCache { writes } => {
                    for write in writes {
                        self.fills.push((write.key.clone(), write.ttl_seconds));
                        self.cache.insert(write.key, write.item);
                    }
                    BatchEvent::CacheFilled
                }
                BatchAction::Finish { items } => return Some(items),
                BatchAction::Fail => return None,
            };
            read = read.advance(event);
        }
    }
}

#[test]
fn read_after_filling_read_returns_the_stored_record() {
    let lamp = item("lamp", "Lamp");
    let mut shelf = Shelf::with(&[lamp.clone()]);
    assert_eq!(shelf.get_item("lamp"), Some(lamp.clone()));
    assert_eq!(shelf.store_reads, 1);
    assert_eq!(shelf.fills, vec![("item_details:lamp".to_string(), 3600)]);
    assert_eq!(shelf.get_item("lamp"), Some(lamp.clone()));
    assert_eq!(shelf.store_reads, 1);
    assert_eq!(shelf.cache.get("item_details:lamp"), Some(&lamp));
}

#[test]
fn read_of_unknown_item_returns_nothing_and_caches_nothing() {
    let mut shelf = Shelf::with(&[item("lamp", "Lamp")]);
    assert_eq!(shelf.get_item("chair"), None);
    assert_eq!(shelf.store_reads, 1);
    assert!(shelf.cache.is_empty());
}

#[test]
fn cache_hit_does_not_touch_the_store() {
    let mut shelf = Shelf::with(&[]);
    let cached = item("lamp", "Cached lamp");
    shelf.cache.insert("item_details:lamp".to_string(), cached.clone());
    assert_eq!(shelf.get_item("lamp"), Some(cached));
    assert_eq!(shelf.store_reads, 0);
}

#[test]
fn failing_cache_counts_as_a_miss() {
    let lamp = item("lamp", "Lamp");
    let read = ItemRead::open("lamp");
    assert_eq!(read.pending(), ReadAction::ReadCache { key: "item_details:lamp".to_string() });
    let read = read.advance(ReadEvent::CacheFailed);
    assert_eq!(read.pending(), ReadAction::FindItem { item_id: "lamp".to_string() });
    let read = read.advance(ReadEvent::StoreFound { item: lamp.clone() });
    assert_eq!(
        read.pending(),
        ReadAction::FillCache {
            key: "item_details:lamp".to_string(),
            item: lamp.clone(),
            ttl_seconds: ITEM_DETAILS_TTL_SECONDS,
        }
    );
    let read = read.advance(ReadEvent::CacheFillFailed);
    assert!(read.is_done());
    assert_eq!(read.pending(), ReadAction::Finish { found: Some(lamp) });
}

#[test]
fn failing_store_reads_as_not_found() {
    let read = ItemRead::open("lamp")
        .advance(ReadEvent::CacheMiss)
        .advance(ReadEvent::StoreFailed);
    assert!(read.is_done());
    assert_eq!(read.pending(), ReadAction::Finish { found: None });
}

#[test]
fn item_clone_keeps_every_field() {
    let lamp = item("lamp", "Lamp");
    assert_eq!(lamp.clone(), lamp);
    assert!(lamp.has_id("lamp"));
    assert!(!lamp.has_id("lam"));
    let nameless = Item { id: None, ..item("x", "X") };
    assert!(!nameless.has_id("x"));
}

#[test]
fn batch_read_joins_cache_hits_and_store_hits() {
    let lamp = item("lamp", "Lamp");
    let vase = item("vase", "Vase");
    let mut shelf = Shelf::with(&[lamp.clone(), vase.clone()]);
    shelf.cache.insert("item_details:vase".to_string(), vase.clone());
    let found = shelf.get_items(&["lamp", "ghost", "vase"]).unwrap();
    assert_eq!(found, vec![vase.clone(), lamp.clone()]);
    assert_eq!(shelf.store_reads, 1);
    assert_eq!(shelf.fills, vec![("item_details:lamp".to_string(), 3600)]);
    assert_eq!(shelf.cache.get("item_details:lamp"), Some(&lamp));
    assert!(!shelf.cache.contains_key("item_details:ghost"));
}

#[test]
fn batch_read_served_by_the_cache_skips_the_store() {
    let lamp = item("lamp", "Lamp");
    let mut shelf = Shelf::with(&[]);
    shelf.cache.insert("item_details:lamp".to_string(), lamp.clone());
    assert_eq!(shelf.get_items(&["lamp"]), Some(vec![lamp]));
    assert_eq!(shelf.store_reads, 0);
}

#[test]
fn batch_read_of_nothing_is_done_at_once() {
    let read = ItemsRead::open(Vec::new());
    assert!(read.is_settled());
    assert_eq!(read.pending(), BatchAction::Finish { items: Vec::new() });
}

#[test]
fn batch_read_asks_the_store_for_exactly_the_missing() {
    let vase = item("vase", "Vase");
    let read = ItemsRead::open(vec!["lamp".to_string(), "vase".to_string(), "bowl".to_string()]);
    assert_eq!(
        read.pending(),
        BatchAction::ReadCache {
            keys: vec![
                "item_details:lamp".to_string(),
                "item_details:vase".to_string(),
                "item_details:bowl".to_string(),
            ],
        }
    );
    let read = read.advance(BatchEvent::CacheValues { values: vec![None, Some(vase), None] });
    assert_eq!(
        read.pending(),
        BatchAction::FindItems { item_ids: vec!["lamp".to_string(), "bowl".to_string()] }
    );
}

#[test]
fn batch_read_with_failing_cache_asks_the_store_for_all() {
    let read =
        ItemsRead::open(vec!["lamp".to_string(), "vase".to_string()]).advance(BatchEvent::CacheFailed);
    assert_eq!(
        read.pending(),
        BatchAction::FindItems { item_ids: vec!["lamp".to_string(), "vase".to_string()] }
    );
}

#[test]
fn batch_read_with_failing_store_fails() {
    let read = ItemsRead::open(vec!["lamp".to_string()])
        .advance(BatchEvent::CacheValues { values: vec![None] })
        .advance(BatchEvent::StoreFailed);
    assert!(read.is_settled());
    assert_eq!(read.pending(), BatchAction::Fail);
}

#[test]
fn batch_helpers_compute_hits_missing_and_fills() {
    let lamp = item("lamp", "Lamp");
    let nameless = Item { id: None, ..item("x", "X") };
    let hits = present_items(&vec![None, Some(lamp.clone()), None]);
    assert_eq!(hits, vec![lamp.clone()]);
    assert!(is_among(&hits, "lamp"));
    assert!(!is_among(&hits, "vase"));
    let ids = vec!["lamp".to_string(), "vase".to_string()];
    assert_eq!(missing_ids(&ids, &hits), vec!["vase".to_string()]);
    assert_eq!(missing_ids(&ids, &vec![nameless.clone(), nameless.clone()]), Vec::<String>::new());
    assert_eq!(
        cache_fills(&vec![nameless, lamp.clone()]),
        vec![CacheFill { key: "item_details:lamp".to_string(), item: lamp, ttl_seconds: 3600 }]
    );
    assert_eq!(detail_keys(&ids), vec!["item_details:lamp", "item_details:vase"]);
}
