//! Reading items through the cache.
//!
//! A single read asks the cache first; on a miss it asks the store and, if
//! the store has the item, leaves a copy in the cache for an hour. A failing
//! cache counts as a miss. The component never removes an entry itself:
//! whoever changes or retires an item deletes its entry.

use vstd::prelude::*;
use crate::catalog::{Item, ItemView};
use crate::keys::{details_key, item_details_key};

verus! {

/// How long a cached detail record lives, in seconds.
pub const ITEM_DETAILS_TTL_SECONDS: u64 = 3600;

/// How far a read has come.
#[derive(Clone, Copy, Debug, PartialEq, Eq)]
pub enum ReadPhase {
    /// The cache is being asked.
    ReadCache,
    /// The cache had nothing; the store is being asked.
    ReadStore,
    /// The store had the item; a copy is being left in the cache.
    FillCache,
    /// Nothing is left to do.
    Done,
}

/// What came of the call that the read asked for.
#[derive(Debug, PartialEq, Eq)]
pub enum ReadEvent {
    CacheHit { item: Item },
    CacheMiss,
    CacheFailed,
    StoreFound { item: Item },
    StoreAbsent,
    StoreFailed,
    CacheFilled,
    CacheFillFailed,
}

pub ghost enum ReadEventView {
    CacheHit { item: ItemView },
    CacheMiss,
    CacheFailed,
    StoreFound { item: ItemView },
    StoreAbsent,
    StoreFailed,
    CacheFilled,
    CacheFillFailed,
}

impl View for ReadEvent {
    type V = ReadEventView;

    open spec fn view(&self) -> ReadEventView {
        match self {
            ReadEvent::CacheHit { item } => ReadEventView::CacheHit { item: item@ },
            ReadEvent::CacheMiss => ReadEventView::CacheMiss,
            ReadEvent::CacheFailed => ReadEventView::CacheFailed,
            ReadEvent::StoreFound { item } => ReadEventView::StoreFound { item: item@ },
            ReadEvent::StoreAbsent => ReadEventView::StoreAbsent,
            ReadEvent::StoreFailed => ReadEventView::StoreFailed,
            ReadEvent::CacheFilled => ReadEventView::CacheFilled,
            ReadEvent::CacheFillFailed => ReadEventView::CacheFillFailed,
        }
    }
}

/// The call that the service has to make next.
#[derive(Debug, PartialEq, Eq)]
pub enum ReadAction {
    /// Read the detail record from the cache.
    ReadCache { key: String },
    /// Look the item up in the store.
    FindItem { item_id: String },
    /// Write the detail record to the cache, to expire after the given time.
    FillCache { key: String, item: Item, ttl_seconds: u64 },
    /// Answer the request.
    Finish { found: Option<Item> },
}

pub ghost enum ReadActionView {
    ReadCache { key: Seq<char> },
    FindItem { item_id: Seq<char> },
    FillCache { key: Seq<char>, item: ItemView, ttl_seconds: u64 },
    Finish { found: Option<ItemView> },
}

impl View for ReadAction {
    type V = ReadActionView;

    open spec fn view(&self) -> ReadActionView {
        match self {
            ReadAction::ReadCache { key } => ReadActionView::ReadCache { key: key@ },
            ReadAction::FindItem { item_id } => ReadActionView::FindItem { item_id: item_id@ },
            ReadAction::FillCache { key, item, ttl_seconds } => ReadActionView::FillCache {
                key: key@,
                item: item@,
                ttl_seconds: *ttl_seconds,
            },
            ReadAction::Finish { found } => ReadActionView::Finish {
                found: match found {
                    Some(item) => Some(item@),
                    None => None,
                },
            },
        }
    }
}

/// One read of an item, on its way.
#[derive(Debug, PartialEq, Eq)]
pub struct ItemRead {
    pub item_id: String,
    pub phase: ReadPhase,
    /// The item, once the cache or the store gave it.
    pub item: Option<Item>,
}

pub ghost struct ItemReadView {
    pub item_id: Seq<char>,
    pub phase: ReadPhase,
    pub item: Option<ItemView>,
}

impl View for ItemRead {
    type V = ItemReadView;

    open spec fn view(&self) -> ItemReadView {
        ItemReadView {
            item_id: self.item_id@,
            phase: self.phase,
            item: match self.item {
                Some(item) => Some(item@),
                None => None,
            },
        }
    }
}

impl ItemReadView {
    /// The read of `item_id` at its start.
    pub open spec fn start(item_id: Seq<char>) -> ItemReadView {
        ItemReadView { item_id, phase: ReadPhase::ReadCache, item: None }
    }

    /// The call that is due.
    pub open spec fn pending(self) -> ReadActionView {
        match (self.phase, self.item) {
            (ReadPhase::ReadCache, _) => ReadActionView::ReadCache { key: details_key(self.item_id) },
            (ReadPhase::ReadStore, _) => ReadActionView::FindItem { item_id: self.item_id },
            (ReadPhase::FillCache, Some(item)) => ReadActionView::FillCache {
                key: details_key(self.item_id),
                item,
                ttl_seconds: ITEM_DETAILS_TTL_SECONDS,
            },
            _ => ReadActionView::Finish { found: self.item },
        }
    }

    /// The read after `event`. An event that does not answer the pending
    /// call leaves the read as it is.
    pub open spec fn after(self, event: ReadEventView) -> ItemReadView {
        match (self.phase, event) {
            (ReadPhase::ReadCache, ReadEventView::CacheHit { item }) => ItemReadView {
                phase: ReadPhase::Done,
                item: Some(item),
                ..self
            },
            (ReadPhase::ReadCache, ReadEventView::CacheMiss) => ItemReadView {
                phase: ReadPhase::ReadStore,
                ..self
            },
            (ReadPhase::ReadCache, ReadEventView::CacheFailed) => ItemReadView {
                phase: ReadPhase::ReadStore,
                ..self
            },
            (ReadPhase::ReadStore, ReadEventView::StoreFound { item }) => ItemReadView {
                phase: ReadPhase::FillCache,
                item: Some(item),
                ..self
            },
            (ReadPhase::ReadStore, ReadEventView::StoreAbsent) => ItemReadView {
                phase: ReadPhase::Done,
                item: None,
                ..self
            },
            (ReadPhase::ReadStore, ReadEventView::StoreFailed) => ItemReadView {
                phase: ReadPhase::Done,
                item: None,
                ..self
            },
            (ReadPhase::FillCache, ReadEventView::CacheFilled) => ItemReadView {
                phase: ReadPhase::Done,
                ..self
            },
            (ReadPhase::FillCache, ReadEventView::CacheFillFailed) => ItemReadView {
                phase: ReadPhase::Done,
                ..self
            },
            _ => self,
        }
    }

    /// Whether nothing is left to do.
    pub open spec fn done(self) -> bool {
        self.phase is Done
    }
}

impl ItemRead {
    /// Takes up the read of `item_id`.
    pub fn open(item_id: &str) -> (read: ItemRead)
        ensures
            read@ == ItemReadView::start(item_id@),
    {
        ItemRead { item_id: String::from_str(item_id), phase: ReadPhase::ReadCache, item: None }
    }

    fn item_copy(&self) -> (copy: Option<Item>)
        ensures
            copy.is_some() == self.item.is_some(),
            copy matches Some(item) ==> self@.item == Some(item@),
            copy is None ==> self@.item is None,
    {
        match &self.item {
            Some(item) => Some(item.clone()),
            None => None,
        }
    }

    /// The call that the service has to make next.
    pub fn pending(&self) -> (action: ReadAction)
        ensures
            action@ == self@.pending(),
    {
        match self.phase {
            ReadPhase::ReadCache => ReadAction::ReadCache {
                key: item_details_key(self.item_id.as_str()),
            },
            ReadPhase::ReadStore => ReadAction::FindItem { item_id: self.item_id.clone() },
            ReadPhase::FillCache => match self.item_copy() {
                Some(item) => ReadAction::FillCache {
                    key: item_details_key(self.item_id.as_str()),
                    item,
                    ttl_seconds: ITEM_DETAILS_TTL_SECONDS,
                },
                None => ReadAction::Finish { found: None },
            },
            ReadPhase::Done => ReadAction::Finish { found: self.item_copy() },
        }
    }

    /// Takes in what came of the pending call.
    pub fn advance(self, event: ReadEvent) -> (next: ItemRead)
        ensures
            next@ == self@.after(event@),
    {
        let mut read = self;
        match (read.phase, event) {
            (ReadPhase::ReadCache, ReadEvent::CacheHit { item }) => {
                read.phase = ReadPhase::Done;
                read.item = Some(item);
            },
            (ReadPhase::ReadCache, ReadEvent::CacheMiss) => {
                read.phase = ReadPhase::ReadStore;
            },
            (ReadPhase::ReadCache, ReadEvent::CacheFailed) => {
                read.phase = ReadPhase::ReadStore;
            },
            (ReadPhase::ReadStore, ReadEvent::StoreFound { item }) => {
                read.phase = ReadPhase::FillCache;
                read.item = Some(item);
            },
            (ReadPhase::ReadStore, ReadEvent::StoreAbsent) => {
                read.phase = ReadPhase::Done;
                read.item = None;
            },
            (ReadPhase::ReadStore, ReadEvent::StoreFailed) => {
                read.phase = ReadPhase::Done;
                read.item = None;
            },
            (ReadPhase::FillCache, ReadEvent::CacheFilled) => {
                read.phase = ReadPhase::Done;
            },
            (ReadPhase::FillCache, ReadEvent::CacheFillFailed) => {
                read.phase = ReadPhase::Done;
            },
            _ => {},
        }
        read
    }

    /// Whether nothing is left to do.
    pub fn is_done(&self) -> (done: bool)
        ensures
            done == self@.done(),
    {
        match self.phase {
            ReadPhase::Done => true,
            _ => false,
        }
    }
}

} // verus!
