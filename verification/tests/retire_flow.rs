use auction_server::retire::{RetireAction, RetireEvent, RetireFlow};
use std::collections::HashMap;

fn cache_of(entries: &[(&str, &str)]) -> HashMap<String, String> {
    entries.iter().map(|(key, value)| (key.to_string(), value.to_string())).collect()
}

fn retire(cache: &mut HashMap<String, String>, item_id: &str) -> RetireFlow {
    let mut flow = RetireFlow::open(item_id);
    loop {
        let event = match flow.pending() {
            RetireAction::Get { key } => match cache.get(&key) {
                Some(text) => RetireEvent::Found { text: text.clone() },
                None => RetireEvent::Absent,
            },
            RetireAction::Put { key, value } => {
                cache.insert(key, value);
                RetireEvent::Stored
            }
            RetireAction::Delete { key } => {
                cache.remove(&key);
                RetireEvent::Stored
            }
            RetireAction::Finish => return flow,
        };
        flow = flow.advance(event);
    }
}

#[test]
fn retiring_an_item_removes_references_both_ways() {
    let mut cache = cache_of(&[
        ("similar_items:X", "Y,Z"),
        ("similar_items:Y", "X"),
        ("similar_items:Z", "X,W"),
        ("similar_items:W", "Z"),
        ("item_details:X", "{}"),
        ("item_details:Y", "{}"),
    ]);
    let flow = retire(&mut cache, "X");
    assert!(flow.is_finished());
    assert!(flow.is_clean());
    assert_eq!(
        cache,
        cache_of(&[
            ("similar_items:Z", "W"),
            ("similar_items:W", "Z"),
            ("item_details:Y", "{}"),
        ])
    );
}

#[test]
fn retiring_an_item_without_a_list_only_deletes_its_own_entries() {
    let mut cache = cache_of(&[("similar_items:Y", "X,Z"), ("item_details:X", "{}")]);
    let flow = retire(&mut cache, "X");
    assert!(flow.is_finished());
    assert!(flow.is_clean());
    assert_eq!(cache, cache_of(&[("similar_items:Y", "X,Z")]));
}

#[test]
fn no_listed_item_refers_to_the_retired_item() {
    let mut cache = cache_of(&[
        ("similar_items:a", "b,c,d"),
        ("similar_items:b", "a,c"),
        ("similar_items:c", "b,a,a"),
        ("similar_items:d", "a"),
    ]);
    retire(&mut cache, "a");
    assert!(!cache.contains_key("similar_items:a"));
    assert!(!cache.contains_key("item_details:a"));
    assert!(!cache.contains_key("similar_items:d"));
    assert_eq!(cache.get("similar_items:b").unwrap(), "c");
    assert_eq!(cache.get("similar_items:c").unwrap(), "b");
}

#[test]
fn member_listed_twice_is_cleaned_once_and_left_clean() {
    let mut cache = cache_of(&[("similar_items:a", "b,b"), ("similar_items:b", "a,c")]);
    let flow = retire(&mut cache, "a");
    assert!(flow.is_clean());
    assert_eq!(cache, cache_of(&[("similar_items:b", "c")]));
}

#[test]
fn member_without_a_list_is_passed_over() {
    let mut cache = cache_of(&[("similar_items:a", "b,c"), ("similar_items:c", "a")]);
    let flow = retire(&mut cache, "a");
    assert!(flow.is_clean());
    assert!(cache.is_empty());
}

#[test]
fn clean_up_asks_for_the_calls_in_order() {
    let flow = RetireFlow::open("X");
    assert_eq!(flow.pending(), RetireAction::Get { key: "similar_items:X".to_string() });
    let flow = flow.advance(RetireEvent::Found { text: "Y,Z".to_string() });
    assert_eq!(flow.pending(), RetireAction::Get { key: "similar_items:Y".to_string() });
    let flow = flow.advance(RetireEvent::Found { text: "X".to_string() });
    assert_eq!(flow.pending(), RetireAction::Delete { key: "similar_items:Y".to_string() });
    let flow = flow.advance(RetireEvent::Stored);
    assert_eq!(flow.pending(), RetireAction::Get { key: "similar_items:Z".to_string() });
    let flow = flow.advance(RetireEvent::Found { text: "X,W".to_string() });
    assert_eq!(
        flow.pending(),
        RetireAction::Put { key: "similar_items:Z".to_string(), value: "W".to_string() }
    );
    let flow = flow.advance(RetireEvent::Stored);
    assert_eq!(flow.pending(), RetireAction::Delete { key: "similar_items:X".to_string() });
    let flow = flow.advance(RetireEvent::Stored);
    assert_eq!(flow.pending(), RetireAction::Delete { key: "item_details:X".to_string() });
    let flow = flow.advance(RetireEvent::Stored);
    assert_eq!(flow.pending(), RetireAction::Finish);
    assert!(flow.is_finished());
}

#[test]
fn failure_on_one_member_does_not_stop_the_others() {
    let flow = RetireFlow::open("X")
        .advance(RetireEvent::Found { text: "Y,Z,V".to_string() })
        .advance(RetireEvent::ReadFailed);
    assert_eq!(flow.pending(), RetireAction::Get { key: "similar_items:Z".to_string() });
    let flow = flow
        .advance(RetireEvent::Found { text: "X,W".to_string() })
        .advance(RetireEvent::StoreFailed);
    assert_eq!(flow.pending(), RetireAction::Get { key: "similar_items:V".to_string() });
    let flow = flow
        .advance(RetireEvent::Absent)
        .advance(RetireEvent::StoreFailed)
        .advance(RetireEvent::StoreFailed);
    assert!(flow.is_finished());
    assert!(!flow.is_clean());
    assert_eq!(flow.failed_members, vec!["Y".to_string(), "Z".to_string()]);
    assert!(flow.own_list_left);
    assert!(flow.details_left);
    assert!(!flow.own_list_unread);
}

#[test]
fn unreadable_own_list_is_noted_and_own_entries_are_still_deleted() {
    let flow = RetireFlow::open("X").advance(RetireEvent::ReadFailed);
    assert!(flow.own_list_unread);
    assert_eq!(flow.pending(), RetireAction::Delete { key: "similar_items:X".to_string() });
    let flow = flow.advance(RetireEvent::Stored).advance(RetireEvent::Stored);
    assert!(flow.is_finished());
    assert!(!flow.is_clean());
}

#[test]
fn retire_event_out_of_turn_changes_nothing() {
    let flow = RetireFlow::open("X").advance(RetireEvent::Stored);
    assert_eq!(flow.pending(), RetireAction::Get { key: "similar_items:X".to_string() });
}
