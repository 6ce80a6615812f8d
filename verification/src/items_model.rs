//! A model of the store and the cache as a read sees them, and what follows
//! when every call succeeds: a read that had to go to the store leaves the
//! record in the cache as the store holds it, and the next read returns
//! that same record without going to the store again.

use vstd::prelude::*;
use crate::catalog::ItemView;
use crate::items::{ItemReadView, ReadActionView, ReadEventView, ReadPhase};
use crate::keys::details_key;

verus! {

/// The state that the calls of a read see and change.
pub ghost struct Shelf {
    /// The stored items, by identifier.
    pub store: Map<Seq<char>, ItemView>,
    /// The cached detail records, by cache key.
    pub cache: Map<Seq<char>, ItemView>,
    /// How often the store was asked.
    pub store_reads: nat,
}

impl Shelf {
    /// What a call returns when store and cache work.
    pub open spec fn answer(self, action: ReadActionView) -> ReadEventView {
        match action {
            ReadActionView::ReadCache { key } => if self.cache.dom().contains(key) {
                ReadEventView::CacheHit { item: self.cache[key] }
            } else {
                ReadEventView::CacheMiss
            },
            ReadActionView::FindItem { item_id } => if self.store.dom().contains(item_id) {
                ReadEventView::StoreFound { item: self.store[item_id] }
            } else {
                ReadEventView::StoreAbsent
            },
            _ => ReadEventView::CacheFilled,
        }
    }

    /// What a call leaves behind when store and cache work.
    pub open spec fn apply(self, action: ReadActionView) -> Shelf {
        match action {
            ReadActionView::FindItem { .. } => Shelf { store_reads: self.store_reads + 1, ..self },
            ReadActionView::FillCache { key, item, .. } => Shelf {
                cache: self.cache.insert(key, item),
                ..self
            },
            _ => self,
        }
    }
}

/// Makes the pending call of `read` on `shelf` and hands the read what came
/// of it, at most `fuel` times or until the read is done.
pub open spec fn carry(read: ItemReadView, shelf: Shelf, fuel: nat) -> (ItemReadView, Shelf)
    decreases fuel,
{
    if fuel == 0 || read.done() {
        (read, shelf)
    } else {
        let action = read.pending();
        carry(read.after(shelf.answer(action)), shelf.apply(action), (fuel - 1) as nat)
    }
}

/// A read taken from its start as far as three calls take it: no read
/// needs more.
pub open spec fn get_item(shelf: Shelf, item_id: Seq<char>) -> (ItemReadView, Shelf) {
    carry(ItemReadView::start(item_id), shelf, 3)
}

/// A read is done within three calls. It returns the cached record where
/// there is one, without asking the store; else the stored record, which
/// it leaves in the cache; else nothing.
pub proof fn lemma_get_item(shelf: Shelf, item_id: Seq<char>)
    ensures
        get_item(shelf, item_id).0.done(),
        shelf.cache.dom().contains(details_key(item_id)) ==> {
            &&& get_item(shelf, item_id).0.item == Some(shelf.cache[details_key(item_id)])
            &&& get_item(shelf, item_id).1 == shelf
        },
        !shelf.cache.dom().contains(details_key(item_id)) && shelf.store.dom().contains(item_id)
            ==> {
            &&& get_item(shelf, item_id).0.item == Some(shelf.store[item_id])
            &&& get_item(shelf, item_id).1 == (Shelf {
                cache: shelf.cache.insert(details_key(item_id), shelf.store[item_id]),
                store_reads: shelf.store_reads + 1,
                ..shelf
            })
        },
        !shelf.cache.dom().contains(details_key(item_id)) && !shelf.store.dom().contains(item_id)
            ==> {
            &&& get_item(shelf, item_id).0.item is None
            &&& get_item(shelf, item_id).1 == (Shelf {
                store_reads: shelf.store_reads + 1,
                ..shelf
            })
        },
{
    reveal_with_fuel(carry, 4);
}

/// The record that a read returns after a read that filled the cache is
/// the record that the store holds, and the store is not asked for it.
pub proof fn lemma_read_back(shelf: Shelf, item_id: Seq<char>)
    requires
        !shelf.cache.dom().contains(details_key(item_id)),
        shelf.store.dom().contains(item_id),
    ensures
        ({
            let filled = get_item(shelf, item_id).1;
            &&& get_item(filled, item_id).0.item == Some(shelf.store[item_id])
            &&& get_item(filled, item_id).0.item == get_item(shelf, item_id).0.item
            &&& get_item(filled, item_id).1 == filled
            &&& filled.store_reads == shelf.store_reads + 1
        }),
{
    lemma_get_item(shelf, item_id);
    lemma_get_item(get_item(shelf, item_id).1, item_id);
}

} // verus!
