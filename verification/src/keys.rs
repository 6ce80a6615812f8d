//! Names of the cache entries. A key is a namespace, a colon and an
//! identifier; every component that touches the cache builds its keys here.

use vstd::prelude::*;

verus! {

/// `prefix`, a colon, then `key`.
pub open spec fn prefixed(prefix: Seq<char>, key: Seq<char>) -> Seq<char> {
    prefix + seq![':'] + key
}

/// Key of the cached detail record of an item.
pub open spec fn details_key(item_id: Seq<char>) -> Seq<char> {
    prefixed("item_details"@, item_id)
}

/// Key of the leading price of an item.
pub open spec fn current_bid_key(item_id: Seq<char>) -> Seq<char> {
    prefixed("current_bid"@, item_id)
}

/// Key of the list of items similar to an item.
pub open spec fn similar_key(item_id: Seq<char>) -> Seq<char> {
    prefixed("similar_items"@, item_id)
}

/// Key of the list of items that wait to be handed over to a user.
pub open spec fn transferring_key(user_id: Seq<char>) -> Seq<char> {
    prefixed("transferring_items"@, user_id)
}

pub fn create_prefixed_key(prefix: &str, key: &str) -> (full: String)
    ensures
        full@ == prefixed(prefix@, key@),
{
    proof {
        reveal_strlit(":");
    }
    let mut full = String::from_str(prefix);
    full.append(":");
    full.append(key);
    assert(":"@ =~= seq![':']);
    full
}

pub fn item_details_key(item_id: &str) -> (full: String)
    ensures
        full@ == details_key(item_id@),
{
    create_prefixed_key("item_details", item_id)
}

pub fn current_bid_cache_key(item_id: &str) -> (full: String)
    ensures
        full@ == current_bid_key(item_id@),
{
    create_prefixed_key("current_bid", item_id)
}

pub fn similar_items_key(item_id: &str) -> (full: String)
    ensures
        full@ == similar_key(item_id@),
{
    create_prefixed_key("similar_items", item_id)
}

pub fn transferring_items_key(user_id: &str) -> (full: String)
    ensures
        full@ == transferring_key(user_id@),
{
    create_prefixed_key("transferring_items", user_id)
}

/// Two identifiers under one namespace share a key only if they are equal.
pub proof fn lemma_prefixed_injective(prefix: Seq<char>, a: Seq<char>, b: Seq<char>)
    requires
        prefixed(prefix, a) == prefixed(prefix, b),
    ensures
        a == b,
{
    let head = prefix + seq![':'];
    assert(prefixed(prefix, a).skip(head.len() as int) =~= a);
    assert(prefixed(prefix, b).skip(head.len() as int) =~= b);
}

/// The similar-items list of one item and the detail record of another
/// never share a key.
pub proof fn lemma_similar_and_details_apart(a: Seq<char>, b: Seq<char>)
    ensures
        similar_key(a) != details_key(b),
{
    reveal_strlit("similar_items");
    reveal_strlit("item_details");
    assert(similar_key(a)[0] == 's');
    assert(details_key(b)[0] == 'i');
}

} // verus!
