//! Reading several items through the cache at once.
//!
//! The cache is asked for all the items in one call. The store is then
//! asked, in one call, for the items that the cache did not give, and each
//! item that the store gives is copied to the cache. What comes back is what
//! the cache gave followed by what the store gave; an item that neither has
//! is left out without a word.

use vstd::prelude::*;
use crate::catalog::{Item, ItemView};
use crate::items::ITEM_DETAILS_TTL_SECONDS;
use crate::keys::{details_key, item_details_key};

verus! {

/// The records among `values`, in their order.
pub open spec fn present(values: Seq<Option<ItemView>>) -> Seq<ItemView>
    decreases values.len(),
{
    if values.len() == 0 {
        Seq::empty()
    } else {
        match values.last() {
            Some(item) => present(values.drop_last()).push(item),
            None => present(values.drop_last()),
        }
    }
}

/// Whether one of the items has the identifier.
pub open spec fn among(items: Seq<ItemView>, item_id: Seq<char>) -> bool {
    exists|k: int| 0 <= k < items.len() && (#[trigger] items[k]).id == Some(item_id)
}

/// The test that an identifier passes when none of the items has it.
pub open spec fn not_among(items: Seq<ItemView>) -> spec_fn(Seq<char>) -> bool {
    |item_id: Seq<char>| !among(items, item_id)
}

/// The identifiers that the store has to be asked for: none where the cache
/// gave as many items as were asked for, else those that none of the
/// cached items has.
pub open spec fn missing(ids: Seq<Seq<char>>, hits: Seq<ItemView>) -> Seq<Seq<char>> {
    if hits.len() < ids.len() {
        ids.filter(not_among(hits))
    } else {
        Seq::empty()
    }
}

/// One write to the cache.
#[derive(Debug, PartialEq, Eq)]
pub struct CacheFill {
    pub key: String,
    pub item: Item,
    pub ttl_seconds: u64,
}

pub ghost struct CacheFillView {
    pub key: Seq<char>,
    pub item: ItemView,
    pub ttl_seconds: u64,
}

impl View for CacheFill {
    type V = CacheFillView;

    open spec fn view(&self) -> CacheFillView {
        CacheFillView { key: self.key@, item: self.item@, ttl_seconds: self.ttl_seconds }
    }
}

impl DeepView for CacheFill {
    type V = CacheFillView;

    open spec fn deep_view(&self) -> CacheFillView {
        self@
    }
}

/// The writes that copy `fresh` to the cache: one for each item that has
/// an identifier, under the key of that identifier, to expire in an hour.
pub open spec fn fills(fresh: Seq<ItemView>) -> Seq<CacheFillView>
    decreases fresh.len(),
{
    if fresh.len() == 0 {
        Seq::empty()
    } else {
        match fresh.last().id {
            Some(item_id) => fills(fresh.drop_last()).push(
                CacheFillView {
                    key: details_key(item_id),
                    item: fresh.last(),
                    ttl_seconds: ITEM_DETAILS_TTL_SECONDS,
                },
            ),
            None => fills(fresh.drop_last()),
        }
    }
}

/// Copies the records out of what the cache gave.
pub fn present_items(values: &Vec<Option<Item>>) -> (items: Vec<Item>)
    ensures
        items.deep_view() == present(values.deep_view()),
{
    let mut items: Vec<Item> = Vec::new();
    let mut i: usize = 0;
    assert(values.deep_view().take(0) =~= Seq::<Option<ItemView>>::empty());
    assert(items.deep_view() =~= Seq::<ItemView>::empty());
    while i < values.len()
        invariant
            i <= values.len(),
            items.deep_view() == present(values.deep_view().take(i as int)),
        decreases values.len() - i,
    {
        let ghost before = items.deep_view();
        let ghost done = values.deep_view().take(i as int);
        let ghost more = values.deep_view().take(i + 1);
        assert(more.drop_last() =~= done);
        assert(more.last() == values[i as int].deep_view());
        match &values[i] {
            Some(item) => {
                items.push(item.clone());
                assert(items.deep_view() =~= before.push(item@));
            },
            None => {},
        }
        i = i + 1;
    }
    assert(values.deep_view().take(values.len() as int) =~= values.deep_view());
    items
}

/// Tests whether one of the items has the identifier.
pub fn is_among(items: &Vec<Item>, item_id: &str) -> (found: bool)
    ensures
        found == among(items.deep_view(), item_id@),
{
    let mut i: usize = 0;
    while i < items.len()
        invariant
            i <= items.len(),
            forall|k: int| 0 <= k < i ==> (#[trigger] items.deep_view()[k]).id != Some(item_id@),
        decreases items.len() - i,
    {
        if items[i].has_id(item_id) {
            assert(items.deep_view()[i as int].id == Some(item_id@));
            return true;
        }
        i = i + 1;
    }
    false
}

/// The identifiers that the store has to be asked for.
pub fn missing_ids(ids: &Vec<String>, hits: &Vec<Item>) -> (wanted: Vec<String>)
    ensures
        wanted.deep_view() == missing(ids.deep_view(), hits.deep_view()),
{
    let mut wanted: Vec<String> = Vec::new();
    assert(wanted.deep_view() =~= Seq::<Seq<char>>::empty());
    if hits.len() >= ids.len() {
        return wanted;
    }
    let mut i: usize = 0;
    let ghost test = not_among(hits.deep_view());
    assert(ids.deep_view().take(0) =~= Seq::<Seq<char>>::empty());
    proof {
        reveal_with_fuel(Seq::filter, 2);
    }
    while i < ids.len()
        invariant
            i <= ids.len(),
            test == not_among(hits.deep_view()),
            wanted.deep_view() == ids.deep_view().take(i as int).filter(test),
        decreases ids.len() - i,
    {
        let ghost before = wanted.deep_view();
        let ghost done = ids.deep_view().take(i as int);
        let ghost more = ids.deep_view().take(i + 1);
        proof {
            reveal_with_fuel(Seq::filter, 2);
            assert(more.drop_last() =~= done);
            assert(more.last() == ids[i as int]@);
        }
        if !is_among(hits, ids[i].as_str()) {
            wanted.push(ids[i].clone());
            assert(wanted.deep_view() =~= before.push(ids[i as int]@));
        }
        i = i + 1;
    }
    assert(ids.deep_view().take(ids.len() as int) =~= ids.deep_view());
    wanted
}

/// The writes that copy `fresh` to the cache.
pub fn cache_fills(fresh: &Vec<Item>) -> (writes: Vec<CacheFill>)
    ensures
        writes.deep_view() == fills(fresh.deep_view()),
{
    let mut writes: Vec<CacheFill> = Vec::new();
    let mut i: usize = 0;
    assert(fresh.deep_view().take(0) =~= Seq::<ItemView>::empty());
    assert(writes.deep_view() =~= Seq::<CacheFillView>::empty());
    while i < fresh.len()
        invariant
            i <= fresh.len(),
            writes.deep_view() == fills(fresh.deep_view().take(i as int)),
        decreases fresh.len() - i,
    {
        let ghost before = writes.deep_view();
        let ghost done = fresh.deep_view().take(i as int);
        let ghost more = fresh.deep_view().take(i + 1);
        assert(more.drop_last() =~= done);
        assert(more.last() == fresh[i as int]@);
        match &fresh[i].id {
            Some(item_id) => {
                let write = CacheFill {
                    key: item_details_key(item_id.as_str()),
                    item: fresh[i].clone(),
                    ttl_seconds: ITEM_DETAILS_TTL_SECONDS,
                };
                writes.push(write);
                assert(writes.deep_view() =~= before.push(write@));
            },
            None => {},
        }
        i = i + 1;
    }
    assert(fresh.deep_view().take(fresh.len() as int) =~= fresh.deep_view());
    writes
}

/// Copies a list of items.
pub fn copy_items(items: &Vec<Item>) -> (copy: Vec<Item>)
    ensures
        copy.deep_view() == items.deep_view(),
{
    let mut copy: Vec<Item> = Vec::new();
    let mut i: usize = 0;
    while i < items.len()
        invariant
            i <= items.len(),
            copy.len() == i,
            forall|k: int| 0 <= k < i ==> copy[k]@ == items[k]@,
        decreases items.len() - i,
    {
        copy.push(items[i].clone());
        i = i + 1;
    }
    assert(copy.deep_view() =~= items.deep_view());
    copy
}

/// The items of `first` followed by those of `second`.
pub fn joined_items(first: &Vec<Item>, second: &Vec<Item>) -> (all: Vec<Item>)
    ensures
        all.deep_view() == first.deep_view() + second.deep_view(),
{
    let mut all = copy_items(first);
    let mut i: usize = 0;
    assert(first.deep_view() + second.deep_view().take(0) =~= first.deep_view());
    while i < second.len()
        invariant
            i <= second.len(),
            all.deep_view() == first.deep_view() + second.deep_view().take(i as int),
        decreases second.len() - i,
    {
        let ghost before = all.deep_view();
        all.push(second[i].clone());
        assert(all.deep_view() =~= before.push(second[i as int]@));
        assert(second.deep_view().take(i + 1) =~= second.deep_view().take(i as int).push(
            second[i as int]@,
        ));
        assert(all.deep_view() =~= first.deep_view() + second.deep_view().take(i + 1));
        i = i + 1;
    }
    assert(second.deep_view().take(second.len() as int) =~= second.deep_view());
    all
}

/// The store is asked for an identifier exactly if the identifier was
/// asked for, the cache gave fewer items than were asked for, and none of
/// the items that it gave has the identifier.
pub proof fn lemma_missing(ids: Seq<Seq<char>>, hits: Seq<ItemView>, item_id: Seq<char>)
    ensures
        missing(ids, hits).contains(item_id) <==> (hits.len() < ids.len() && ids.contains(item_id)
            && !among(hits, item_id)),
{
    if hits.len() < ids.len() {
        lemma_filter_members(ids, not_among(hits), item_id);
    }
}

proof fn lemma_filter_members(ids: Seq<Seq<char>>, test: spec_fn(Seq<char>) -> bool, id: Seq<char>)
    ensures
        ids.filter(test).contains(id) <==> (ids.contains(id) && test(id)),
    decreases ids.len(),
{
    reveal_with_fuel(Seq::filter, 2);
    if ids.len() > 0 {
        let front = ids.drop_last();
        let last = ids.last();
        let kept = front.filter(test);
        lemma_filter_members(front, test, id);
        assert(ids[ids.len() - 1] == last);
        if ids.contains(id) {
            let k = choose|k: int| 0 <= k < ids.len() && ids[k] == id;
            if k < front.len() {
                assert(front[k] == id);
            }
        }
        if front.contains(id) {
            let k = choose|k: int| 0 <= k < front.len() && front[k] == id;
            assert(ids[k] == id);
        }
        if test(last) {
            let all = kept.push(last);
            assert(ids.filter(test) == all);
            assert(all[kept.len() as int] == last);
            if all.contains(id) {
                let k = choose|k: int| 0 <= k < all.len() && all[k] == id;
                if k < kept.len() {
                    assert(kept[k] == id);
                }
            }
            if kept.contains(id) {
                let k = choose|k: int| 0 <= k < kept.len() && kept[k] == id;
                assert(all[k] == id);
            }
        }
    }
}

/// The cache keys of the detail records of `ids`, in their order.
pub open spec fn keys_of(ids: Seq<Seq<char>>) -> Seq<Seq<char>> {
    Seq::new(ids.len(), |k: int| details_key(ids[k]))
}

/// The cache keys of the detail records of `ids`.
pub fn detail_keys(ids: &Vec<String>) -> (keys: Vec<String>)
    ensures
        keys.deep_view() == keys_of(ids.deep_view()),
{
    let mut keys: Vec<String> = Vec::new();
    let mut i: usize = 0;
    while i < ids.len()
        invariant
            i <= ids.len(),
            keys.len() == i,
            forall|k: int| 0 <= k < i ==> keys[k]@ == details_key(ids[k]@),
        decreases ids.len() - i,
    {
        keys.push(item_details_key(ids[i].as_str()));
        i = i + 1;
    }
    assert(keys.deep_view() =~= keys_of(ids.deep_view()));
    keys
}

/// How far a read of several items has come.
#[derive(Clone, Copy, Debug, PartialEq, Eq)]
pub enum BatchPhase {
    /// The cache is being asked for all the items.
    ReadCache,
    /// The store is being asked for the items that the cache did not give.
    ReadStore,
    /// What the store gave is being copied to the cache.
    FillCache,
    /// Nothing is left to do.
    Done,
    /// The store could not be read.
    Failed,
}

/// What came of the call that the read asked for.
#[derive(Debug, PartialEq, Eq)]
pub enum BatchEvent {
    /// What the cache holds under each key, in the order of the keys.
    CacheValues { values: Vec<Option<Item>> },
    CacheFailed,
    /// The items that the store holds of those asked for.
    StoreItems { items: Vec<Item> },
    StoreFailed,
    /// The writes were made, or were tried: a write that fails is let go.
    CacheFilled,
}

pub ghost enum BatchEventView {
    CacheValues { values: Seq<Option<ItemView>> },
    CacheFailed,
    StoreItems { items: Seq<ItemView> },
    StoreFailed,
    CacheFilled,
}

impl View for BatchEvent {
    type V = BatchEventView;

    open spec fn view(&self) -> BatchEventView {
        match self {
            BatchEvent::CacheValues { values } => BatchEventView::CacheValues {
                values: values.deep_view(),
            },
            BatchEvent::CacheFailed => BatchEventView::CacheFailed,
            BatchEvent::StoreItems { items } => BatchEventView::StoreItems {
                items: items.deep_view(),
            },
            BatchEvent::StoreFailed => BatchEventView::StoreFailed,
            BatchEvent::CacheFilled => BatchEventView::CacheFilled,
        }
    }
}

/// The call that the service has to make next.
#[derive(Debug, PartialEq, Eq)]
pub enum BatchAction {
    /// Read all these keys from the cache in one call.
    ReadCache { keys: Vec<String> },
    /// Ask the store for all these items in one call.
    FindItems { item_ids: Vec<String> },
    /// Make each of these writes to the cache.
    FillCache { writes: Vec<CacheFill> },
    /// Answer the request with these items.
    Finish { items: Vec<Item> },
    /// Answer the request with a failure of the store.
    Fail,
}

pub ghost enum BatchActionView {
    ReadCache { keys: Seq<Seq<char>> },
    FindItems { item_ids: Seq<Seq<char>> },
    FillCache { writes: Seq<CacheFillView> },
    Finish { items: Seq<ItemView> },
    Fail,
}

impl View for BatchAction {
    type V = BatchActionView;

    open spec fn view(&self) -> BatchActionView {
        match self {
            BatchAction::ReadCache { keys } => BatchActionView::ReadCache { keys: keys.deep_view() },
            BatchAction::FindItems { item_ids } => BatchActionView::FindItems {
                item_ids: item_ids.deep_view(),
            },
            BatchAction::FillCache { writes } => BatchActionView::FillCache {
                writes: writes.deep_view(),
            },
            BatchAction::Finish { items } => BatchActionView::Finish { items: items.deep_view() },
            BatchAction::Fail => BatchActionView::Fail,
        }
    }
}

/// One read of several items, on its way.
#[derive(Debug, PartialEq, Eq)]
pub struct ItemsRead {
    pub ids: Vec<String>,
    pub phase: BatchPhase,
    /// What the cache gave.
    pub hits: Vec<Item>,
    /// What the store is asked for.
    pub wanted: Vec<String>,
    /// What the store gave.
    pub fresh: Vec<Item>,
}

pub ghost struct ItemsReadView {
    pub ids: Seq<Seq<char>>,
    pub phase: BatchPhase,
    pub hits: Seq<ItemView>,
    pub wanted: Seq<Seq<char>>,
    pub fresh: Seq<ItemView>,
}

impl View for ItemsRead {
    type V = ItemsReadView;

    open spec fn view(&self) -> ItemsReadView {
        ItemsReadView {
            ids: self.ids.deep_view(),
            phase: self.phase,
            hits: self.hits.deep_view(),
            wanted: self.wanted.deep_view(),
            fresh: self.fresh.deep_view(),
        }
    }
}

impl ItemsReadView {
    /// The read of `ids` at its start: with nothing to read it is done.
    pub open spec fn start(ids: Seq<Seq<char>>) -> ItemsReadView {
        ItemsReadView {
            ids,
            phase: if ids.len() == 0 {
                BatchPhase::Done
            } else {
                BatchPhase::ReadCache
            },
            hits: Seq::empty(),
            wanted: Seq::empty(),
            fresh: Seq::empty(),
        }
    }

    /// The read after the cache gave `hits`.
    pub open spec fn with_hits(self, hits: Seq<ItemView>) -> ItemsReadView {
        let wanted = missing(self.ids, hits);
        ItemsReadView {
            hits,
            wanted,
            phase: if wanted.len() > 0 {
                BatchPhase::ReadStore
            } else {
                BatchPhase::Done
            },
            ..self
        }
    }

    /// The call that is due.
    pub open spec fn pending(self) -> BatchActionView {
        match self.phase {
            BatchPhase::ReadCache => BatchActionView::ReadCache { keys: keys_of(self.ids) },
            BatchPhase::ReadStore => BatchActionView::FindItems { item_ids: self.wanted },
            BatchPhase::FillCache => BatchActionView::FillCache { writes: fills(self.fresh) },
            BatchPhase::Done => BatchActionView::Finish { items: self.hits + self.fresh },
            BatchPhase::Failed => BatchActionView::Fail,
        }
    }

    /// The read after `event`. A failing cache counts as an empty one. An
    /// event that does not answer the pending call leaves the read as it is.
    pub open spec fn after(self, event: BatchEventView) -> ItemsReadView {
        match (self.phase, event) {
            (BatchPhase::ReadCache, BatchEventView::CacheValues { values }) => self.with_hits(
                present(values),
            ),
            (BatchPhase::ReadCache, BatchEventView::CacheFailed) => self.with_hits(Seq::empty()),
            (BatchPhase::ReadStore, BatchEventView::StoreItems { items }) => ItemsReadView {
                fresh: items,
                phase: BatchPhase::FillCache,
                ..self
            },
            (BatchPhase::ReadStore, BatchEventView::StoreFailed) => ItemsReadView {
                phase: BatchPhase::Failed,
                ..self
            },
            (BatchPhase::FillCache, BatchEventView::CacheFilled) => ItemsReadView {
                phase: BatchPhase::Done,
                ..self
            },
            _ => self,
        }
    }

    /// Whether nothing is left to do.
    pub open spec fn settled(self) -> bool {
        self.phase is Done || self.phase is Failed
    }
}

impl ItemsRead {
    /// Takes up the read of `ids`.
    pub fn open(ids: Vec<String>) -> (read: ItemsRead)
        ensures
            read@ == ItemsReadView::start(ids.deep_view()),
    {
        let phase = if ids.len() == 0 {
            BatchPhase::Done
        } else {
            BatchPhase::ReadCache
        };
        let read = ItemsRead { ids, phase, hits: Vec::new(), wanted: Vec::new(), fresh: Vec::new() };
        assert(read.hits.deep_view() =~= Seq::<ItemView>::empty());
        assert(read.wanted.deep_view() =~= Seq::<Seq<char>>::empty());
        assert(read.fresh.deep_view() =~= Seq::<ItemView>::empty());
        read
    }

    fn with_hits(self, hits: Vec<Item>) -> (next: ItemsRead)
        ensures
            next@ == self@.with_hits(hits.deep_view()),
    {
        let wanted = missing_ids(&self.ids, &hits);
        let phase = if wanted.len() > 0 {
            BatchPhase::ReadStore
        } else {
            BatchPhase::Done
        };
        ItemsRead { ids: self.ids, phase, hits, wanted, fresh: self.fresh }
    }

    /// The call that the service has to make next.
    pub fn pending(&self) -> (action: BatchAction)
        ensures
            action@ == self@.pending(),
    {
        match self.phase {
            BatchPhase::ReadCache => BatchAction::ReadCache { keys: detail_keys(&self.ids) },
            BatchPhase::ReadStore => BatchAction::FindItems {
                item_ids: crate::text::copy_texts(&self.wanted),
            },
            BatchPhase::FillCache => BatchAction::FillCache { writes: cache_fills(&self.fresh) },
            BatchPhase::Done => BatchAction::Finish { items: joined_items(&self.hits, &self.fresh) },
            BatchPhase::Failed => BatchAction::Fail,
        }
    }

    /// Takes in what came of the pending call.
    pub fn advance(self, event: BatchEvent) -> (next: ItemsRead)
        ensures
            next@ == self@.after(event@),
    {
        match (self.phase, event) {
            (BatchPhase::ReadCache, BatchEvent::CacheValues { values }) => {
                let hits = present_items(&values);
                self.with_hits(hits)
            },
            (BatchPhase::ReadCache, BatchEvent::CacheFailed) => {
                let hits: Vec<Item> = Vec::new();
                assert(hits.deep_view() =~= Seq::<ItemView>::empty());
                self.with_hits(hits)
            },
            (BatchPhase::ReadStore, BatchEvent::StoreItems { items }) => ItemsRead {
                ids: self.ids,
                phase: BatchPhase::FillCache,
                hits: self.hits,
                wanted: self.wanted,
                fresh: items,
            },
            (BatchPhase::ReadStore, BatchEvent::StoreFailed) => ItemsRead {
                ids: self.ids,
                phase: BatchPhase::Failed,
                hits: self.hits,
                wanted: self.wanted,
                fresh: self.fresh,
            },
            (BatchPhase::FillCache, BatchEvent::CacheFilled) => ItemsRead {
                ids: self.ids,
                phase: BatchPhase::Done,
                hits: self.hits,
                wanted: self.wanted,
                fresh: self.fresh,
            },
            _ => self,
        }
    }

    /// Whether the store could not be read.
    pub fn is_failed(&self) -> (failed: bool)
        ensures
            failed == (self@.phase is Failed),
    {
        match self.phase {
            BatchPhase::Failed => true,
            _ => false,
        }
    }

    /// Whether nothing is left to do.
    pub fn is_settled(&self) -> (done: bool)
        ensures
            done == self@.settled(),
    {
        match self.phase {
            BatchPhase::Done => true,
            BatchPhase::Failed => true,
            _ => false,
        }
    }
}

} // verus!
