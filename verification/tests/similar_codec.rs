use auction_server::keys::{
    create_prefixed_key, current_bid_cache_key, item_details_key, similar_items_key,
    transferring_items_key,
};
use auction_server::similar::{
    contains_id, decode_similar, encode_similar, get_similar, remove_id,
};
use auction_server::text::{copy_text, copy_texts, starts_with, str_eq};

fn texts(ids: &[&str]) -> Vec<String> {
    ids.iter().map(|id| id.to_string()).collect()
}

#[test]
fn decode_splits_at_commas() {
    assert_eq!(decode_similar("a,b,c"), texts(&["a", "b", "c"]));
    assert_eq!(decode_similar("item-1"), texts(&["item-1"]));
}

#[test]
fn decode_skips_empty_stretches() {
    assert_eq!(decode_similar(""), texts(&[]));
    assert_eq!(decode_similar(","), texts(&[]));
    assert_eq!(decode_similar(",,a,,b,"), texts(&["a", "b"]));
    assert_eq!(decode_similar("a,"), texts(&["a"]));
    assert_eq!(decode_similar(",a"), texts(&["a"]));
}

#[test]
fn decode_keeps_characters_beyond_ascii() {
    assert_eq!(decode_similar("é1,ü2"), texts(&["é1", "ü2"]));
}

#[test]
fn encode_joins_with_commas() {
    assert_eq!(encode_similar(&texts(&[])), "");
    assert_eq!(encode_similar(&texts(&["a"])), "a");
    assert_eq!(encode_similar(&texts(&["a", "b", "c"])), "a,b,c");
}

#[test]
fn written_list_reads_back() {
    let ids = texts(&["x1", "y-2", "z_3"]);
    assert_eq!(decode_similar(&encode_similar(&ids)), ids);
}

#[test]
fn remove_id_drops_every_occurrence() {
    assert_eq!(remove_id(&texts(&["x", "w", "x"]), "x"), texts(&["w"]));
    assert_eq!(remove_id(&texts(&["x"]), "x"), texts(&[]));
    assert_eq!(remove_id(&texts(&["a", "b"]), "x"), texts(&["a", "b"]));
    assert_eq!(remove_id(&texts(&[]), "x"), texts(&[]));
}

#[test]
fn contains_id_finds_whole_identifiers_only() {
    assert!(contains_id(&texts(&["a", "bc"]), "bc"));
    assert!(!contains_id(&texts(&["a", "bc"]), "b"));
    assert!(!contains_id(&texts(&[]), "a"));
}

#[test]
fn keys_are_namespace_colon_identifier() {
    assert_eq!(create_prefixed_key("homepage", ""), "homepage:");
    assert_eq!(create_prefixed_key("top_categories", "10"), "top_categories:10");
    assert_eq!(item_details_key("abc"), "item_details:abc");
    assert_eq!(current_bid_cache_key("abc"), "current_bid:abc");
    assert_eq!(similar_items_key("abc"), "similar_items:abc");
    assert_eq!(transferring_items_key("ann"), "transferring_items:ann");
}

#[test]
fn text_helpers_compare_and_copy() {
    assert!(str_eq("abc", "abc"));
    assert!(!str_eq("abc", "abd"));
    assert!(!str_eq("abc", "ab"));
    assert!(starts_with("https://x", "https://"));
    assert!(starts_with("abc", ""));
    assert!(!starts_with("http", "http://"));
    assert!(!starts_with("xhttp://", "http://"));
    assert_eq!(copy_texts(&texts(&["a", "b"])), texts(&["a", "b"]));
    assert_eq!(copy_text(&Some("a".to_string())), Some("a".to_string()));
    assert_eq!(copy_text(&None), None);
}

#[test]
fn item_without_entry_has_no_similar_items() {
    assert_eq!(get_similar(None), texts(&[]));
    assert_eq!(get_similar(Some("")), texts(&[]));
    assert_eq!(get_similar(Some("y,z")), texts(&["y", "z"]));
}
