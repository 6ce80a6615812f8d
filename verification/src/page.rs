//! The page of an item: its detail record, its leading price and the
//! detail records of the items that are similar to it.
//!
//! The detail record is read through the cache; without it there is no
//! page. The leading price and the list of similar items are read from the
//! cache alone, and a cache that fails or holds nothing leaves the price
//! unset and the list empty. The similar items are then read through the
//! cache together.

use vstd::prelude::*;
use crate::batch::{
    joined_items, BatchAction, BatchActionView, BatchEvent, BatchEventView, ItemsRead,
    ItemsReadView,
};
use crate::catalog::{Item, ItemView};
use crate::errors::ErrorKind;
use crate::items::{ItemRead, ItemReadView, ReadAction, ReadActionView, ReadEvent, ReadEventView};
use crate::keys::{current_bid_cache_key, current_bid_key, similar_items_key, similar_key};
use crate::similar::{decode_similar, ids_of};

verus! {

/// The price that a page shows where no bid was placed.
pub const NO_BID_PRICE: i64 = -1;

/// What the page of an item shows.
#[derive(Debug, PartialEq, Eq)]
pub struct ItemPage {
    pub item_details: Item,
    pub current_bid_price: i64,
    pub similar_items_details: Vec<Item>,
}

pub ghost struct ItemPageView {
    pub item_details: ItemView,
    pub current_bid_price: i64,
    pub similar_items_details: Seq<ItemView>,
}

impl View for ItemPage {
    type V = ItemPageView;

    open spec fn view(&self) -> ItemPageView {
        ItemPageView {
            item_details: self.item_details@,
            current_bid_price: self.current_bid_price,
            similar_items_details: self.similar_items_details.deep_view(),
        }
    }
}

/// Why there is no page.
#[derive(Clone, Copy, Debug, PartialEq, Eq, Structural)]
pub enum PageError {
    /// Neither the cache nor the store has the item.
    NotFound,
    /// The store could not give the similar items.
    StoreFailure,
}

impl PageError {
    pub open spec fn kind_of(self) -> ErrorKind {
        match self {
            PageError::NotFound => ErrorKind::NotFound,
            PageError::StoreFailure => ErrorKind::StoreFailure,
        }
    }

    pub fn kind(&self) -> (kind: ErrorKind)
        ensures
            kind == self.kind_of(),
    {
        match self {
            PageError::NotFound => ErrorKind::NotFound,
            PageError::StoreFailure => ErrorKind::StoreFailure,
        }
    }
}

/// How far the page has come.
#[derive(Clone, Copy, Debug, PartialEq, Eq)]
pub enum PagePhase {
    /// The detail record is being read.
    Details,
    /// The leading price is being read.
    CurrentBid,
    /// The list of similar items is being read.
    SimilarIds,
    /// The detail records of the similar items are being read.
    SimilarDetails,
    /// Nothing is left to do.
    Done,
}

/// What came of the call that the flow asked for.
#[derive(Debug, PartialEq, Eq)]
pub enum PageEvent {
    Details { event: ReadEvent },
    CurrentBidRead { bid_price: i64 },
    CurrentBidAbsent,
    CurrentBidFailed,
    SimilarFound { text: String },
    SimilarAbsent,
    SimilarFailed,
    Similar { answer: BatchEvent },
}

pub ghost enum PageEventView {
    Details { event: ReadEventView },
    CurrentBidRead { bid_price: i64 },
    CurrentBidAbsent,
    CurrentBidFailed,
    SimilarFound { text: Seq<char> },
    SimilarAbsent,
    SimilarFailed,
    Similar { answer: BatchEventView },
}

impl View for PageEvent {
    type V = PageEventView;

    open spec fn view(&self) -> PageEventView {
        match self {
            PageEvent::Details { event } => PageEventView::Details { event: event@ },
            PageEvent::CurrentBidRead { bid_price } => PageEventView::CurrentBidRead {
                bid_price: *bid_price,
            },
            PageEvent::CurrentBidAbsent => PageEventView::CurrentBidAbsent,
            PageEvent::CurrentBidFailed => PageEventView::CurrentBidFailed,
            PageEvent::SimilarFound { text } => PageEventView::SimilarFound { text: text@ },
            PageEvent::SimilarAbsent => PageEventView::SimilarAbsent,
            PageEvent::SimilarFailed => PageEventView::SimilarFailed,
            PageEvent::Similar { answer } => PageEventView::Similar { answer: answer@ },
        }
    }
}

/// The call that the service has to make next.
#[derive(Debug, PartialEq, Eq)]
pub enum PageAction {
    /// Make this call for the detail record.
    Details { action: ReadAction },
    /// Read the leading price from the cache.
    ReadCurrentBid { key: String },
    /// Read the list of similar items from the cache.
    ReadSimilar { key: String },
    /// Make this call for the similar items.
    Similar { call: BatchAction },
    /// Answer the request.
    Finish { outcome: Result<ItemPage, PageError> },
}

pub ghost enum PageActionView {
    Details { action: ReadActionView },
    ReadCurrentBid { key: Seq<char> },
    ReadSimilar { key: Seq<char> },
    Similar { call: BatchActionView },
    Finish { outcome: Result<ItemPageView, PageError> },
}

impl View for PageAction {
    type V = PageActionView;

    open spec fn view(&self) -> PageActionView {
        match self {
            PageAction::Details { action } => PageActionView::Details { action: action@ },
            PageAction::ReadCurrentBid { key } => PageActionView::ReadCurrentBid { key: key@ },
            PageAction::ReadSimilar { key } => PageActionView::ReadSimilar { key: key@ },
            PageAction::Similar { call } => PageActionView::Similar { call: call@ },
            PageAction::Finish { outcome } => PageActionView::Finish {
                outcome: match outcome {
                    Ok(page) => Ok(page@),
                    Err(why) => Err(*why),
                },
            },
        }
    }
}

/// One page, on its way.
#[derive(Debug, PartialEq, Eq)]
pub struct PageFlow {
    pub item_id: String,
    pub phase: PagePhase,
    /// The read of the detail record.
    pub details: ItemRead,
    pub current_bid_price: i64,
    /// The read of the similar items.
    pub similar: ItemsRead,
    /// Why there is no page, if so.
    pub failure: Option<PageError>,
}

pub ghost struct PageFlowView {
    pub item_id: Seq<char>,
    pub phase: PagePhase,
    pub details: ItemReadView,
    pub current_bid_price: i64,
    pub similar: ItemsReadView,
    pub failure: Option<PageError>,
}

impl View for PageFlow {
    type V = PageFlowView;

    open spec fn view(&self) -> PageFlowView {
        PageFlowView {
            item_id: self.item_id@,
            phase: self.phase,
            details: self.details@,
            current_bid_price: self.current_bid_price,
            similar: self.similar@,
            failure: self.failure,
        }
    }
}

impl PageFlowView {
    /// While a part is being read, its read has a call to make.
    pub open spec fn wf(self) -> bool {
        &&& self.phase is Details ==> !self.details.done()
        &&& self.phase is SimilarDetails ==> !self.similar.settled()
    }

    /// The page of `item_id` at its start.
    pub open spec fn start(item_id: Seq<char>) -> PageFlowView {
        PageFlowView {
            item_id,
            phase: PagePhase::Details,
            details: ItemReadView::start(item_id),
            current_bid_price: NO_BID_PRICE,
            similar: ItemsReadView::start(Seq::empty()),
            failure: None,
        }
    }

    /// The page, or the reason why there is none.
    pub open spec fn outcome(self) -> Result<ItemPageView, PageError> {
        match (self.failure, self.details.item) {
            (Some(why), _) => Err(why),
            (None, Some(item)) => Ok(
                ItemPageView {
                    item_details: item,
                    current_bid_price: self.current_bid_price,
                    similar_items_details: self.similar.hits + self.similar.fresh,
                },
            ),
            (None, None) => Err(PageError::NotFound),
        }
    }

    /// The flow with the similar items to read.
    pub open spec fn with_similar(self, ids: Seq<Seq<char>>) -> PageFlowView {
        let similar = ItemsReadView::start(ids);
        PageFlowView {
            phase: if similar.settled() {
                PagePhase::Done
            } else {
                PagePhase::SimilarDetails
            },
            similar,
            ..self
        }
    }

    /// The flow with the leading price read.
    pub open spec fn with_price(self, bid_price: i64) -> PageFlowView {
        PageFlowView { phase: PagePhase::SimilarIds, current_bid_price: bid_price, ..self }
    }

    /// The call that is due.
    pub open spec fn pending(self) -> PageActionView {
        match self.phase {
            PagePhase::Details => PageActionView::Details { action: self.details.pending() },
            PagePhase::CurrentBid => PageActionView::ReadCurrentBid {
                key: current_bid_key(self.item_id),
            },
            PagePhase::SimilarIds => PageActionView::ReadSimilar { key: similar_key(self.item_id) },
            PagePhase::SimilarDetails => PageActionView::Similar { call: self.similar.pending() },
            PagePhase::Done => PageActionView::Finish { outcome: self.outcome() },
        }
    }

    /// The flow after `event`. An event that does not answer the pending
    /// call leaves the flow as it is.
    pub open spec fn after(self, event: PageEventView) -> PageFlowView {
        match (self.phase, event) {
            (PagePhase::Details, PageEventView::Details { event }) => {
                let details = self.details.after(event);
                if !details.done() {
                    PageFlowView { details, ..self }
                } else if details.item is Some {
                    PageFlowView { phase: PagePhase::CurrentBid, details, ..self }
                } else {
                    PageFlowView {
                        phase: PagePhase::Done,
                        details,
                        failure: Some(PageError::NotFound),
                        ..self
                    }
                }
            },
            (PagePhase::CurrentBid, PageEventView::CurrentBidRead { bid_price }) => self.with_price(
                bid_price,
            ),
            (PagePhase::CurrentBid, PageEventView::CurrentBidAbsent) => self.with_price(
                NO_BID_PRICE,
            ),
            (PagePhase::CurrentBid, PageEventView::CurrentBidFailed) => self.with_price(
                NO_BID_PRICE,
            ),
            (PagePhase::SimilarIds, PageEventView::SimilarFound { text }) => self.with_similar(
                ids_of(text),
            ),
            (PagePhase::SimilarIds, PageEventView::SimilarAbsent) => self.with_similar(Seq::empty()),
            (PagePhase::SimilarIds, PageEventView::SimilarFailed) => self.with_similar(Seq::empty()),
            (PagePhase::SimilarDetails, PageEventView::Similar { answer }) => {
                let similar = self.similar.after(answer);
                if !similar.settled() {
                    PageFlowView { similar, ..self }
                } else if similar.phase is Failed {
                    PageFlowView {
                        phase: PagePhase::Done,
                        similar,
                        failure: Some(PageError::StoreFailure),
                        ..self
                    }
                } else {
                    PageFlowView { phase: PagePhase::Done, similar, ..self }
                }
            },
            _ => self,
        }
    }
}

impl PageFlow {
    /// Takes up the page of `item_id`.
    pub fn open(item_id: &str) -> (flow: PageFlow)
        ensures
            flow@ == PageFlowView::start(item_id@),
            flow@.wf(),
    {
        let none: Vec<String> = Vec::new();
        assert(none.deep_view() =~= Seq::<Seq<char>>::empty());
        PageFlow {
            item_id: String::from_str(item_id),
            phase: PagePhase::Details,
            details: ItemRead::open(item_id),
            current_bid_price: NO_BID_PRICE,
            similar: ItemsRead::open(none),
            failure: None,
        }
    }

    /// The page, or the reason why there is none.
    pub fn outcome(&self) -> (result: Result<ItemPage, PageError>)
        ensures
            match (result, self@.outcome()) {
                (Ok(page), Ok(expected)) => page@ == expected,
                (Err(why), Err(expected)) => why == expected,
                _ => false,
            },
    {
        match (&self.failure, &self.details.item) {
            (Some(why), _) => Err(*why),
            (None, Some(item)) => Ok(
                ItemPage {
                    item_details: item.clone(),
                    current_bid_price: self.current_bid_price,
                    similar_items_details: joined_items(&self.similar.hits, &self.similar.fresh),
                },
            ),
            (None, None) => Err(PageError::NotFound),
        }
    }

    /// The call that the service has to make next.
    pub fn pending(&self) -> (action: PageAction)
        ensures
            action@ == self@.pending(),
    {
        match self.phase {
            PagePhase::Details => PageAction::Details { action: self.details.pending() },
            PagePhase::CurrentBid => PageAction::ReadCurrentBid {
                key: current_bid_cache_key(self.item_id.as_str()),
            },
            PagePhase::SimilarIds => PageAction::ReadSimilar {
                key: similar_items_key(self.item_id.as_str()),
            },
            PagePhase::SimilarDetails => PageAction::Similar { call: self.similar.pending() },
            PagePhase::Done => PageAction::Finish { outcome: self.outcome() },
        }
    }

    fn with_price(self, bid_price: i64) -> (next: PageFlow)
        ensures
            next@ == self@.with_price(bid_price),
    {
        let mut flow = self;
        flow.phase = PagePhase::SimilarIds;
        flow.current_bid_price = bid_price;
        flow
    }

    fn with_similar(self, ids: Vec<String>) -> (next: PageFlow)
        ensures
            next@ == self@.with_similar(ids.deep_view()),
    {
        let mut flow = self;
        let similar = ItemsRead::open(ids);
        flow.phase = if similar.is_settled() {
            PagePhase::Done
        } else {
            PagePhase::SimilarDetails
        };
        flow.similar = similar;
        flow
    }

    /// Takes in what came of the pending call.
    pub fn advance(self, event: PageEvent) -> (next: PageFlow)
        ensures
            next@ == self@.after(event@),
            self@.wf() ==> next@.wf(),
    {
        let mut flow = self;
        match (flow.phase, event) {
            (PagePhase::Details, PageEvent::Details { event }) => {
                let details = flow.details.advance(event);
                if !details.is_done() {
                } else if details.item.is_some() {
                    flow.phase = PagePhase::CurrentBid;
                } else {
                    flow.phase = PagePhase::Done;
                    flow.failure = Some(PageError::NotFound);
                }
                flow.details = details;
                flow
            },
            (PagePhase::CurrentBid, PageEvent::CurrentBidRead { bid_price }) => flow.with_price(
                bid_price,
            ),
            (PagePhase::CurrentBid, PageEvent::CurrentBidAbsent) => flow.with_price(NO_BID_PRICE),
            (PagePhase::CurrentBid, PageEvent::CurrentBidFailed) => flow.with_price(NO_BID_PRICE),
            (PagePhase::SimilarIds, PageEvent::SimilarFound { text }) => {
                let ids = decode_similar(text.as_str());
                flow.with_similar(ids)
            },
            (PagePhase::SimilarIds, PageEvent::SimilarAbsent) => {
                let none: Vec<String> = Vec::new();
                assert(none.deep_view() =~= Seq::<Seq<char>>::empty());
                flow.with_similar(none)
            },
            (PagePhase::SimilarIds, PageEvent::SimilarFailed) => {
                let none: Vec<String> = Vec::new();
                assert(none.deep_view() =~= Seq::<Seq<char>>::empty());
                flow.with_similar(none)
            },
            (PagePhase::SimilarDetails, PageEvent::Similar { answer }) => {
                let similar = flow.similar.advance(answer);
                if !similar.is_settled() {
                } else if similar.is_failed() {
                    flow.phase = PagePhase::Done;
                    flow.failure = Some(PageError::StoreFailure);
                } else {
                    flow.phase = PagePhase::Done;
                }
                flow.similar = similar;
                flow
            },
            _ => flow,
        }
    }

    /// Whether nothing is left to do.
    pub fn is_done(&self) -> (done: bool)
        ensures
            done == (self@.phase is Done),
    {
        match self.phase {
            PagePhase::Done => true,
            _ => false,
        }
    }
}

} // verus!
