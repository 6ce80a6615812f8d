//! The price ledger: how the price of a bid is derived, in which order its
//! effects are made, and what each failure leads to.
//!
//! A `BidFlow` holds one request on its way. `pending` names the call that
//! the service has to make next; `advance` takes what came of that call.
//! The leading price is written to the cache before the bid is appended to
//! the log, so that a failing cache ends the request with nothing durable
//! written. A failing announcement does not fail the bid.

use vstd::prelude::*;
use crate::catalog::ItemStatus;
use crate::errors::ErrorKind;
use crate::keys::{current_bid_cache_key, current_bid_key};

verus! {

/// The leading price of an item, as the cache holds it.
#[derive(Debug, PartialEq, Eq)]
pub struct CurrentBid {
    pub bid_price: i64,
    pub bidder: String,
}

pub ghost struct CurrentBidView {
    pub bid_price: i64,
    pub bidder: Seq<char>,
}

impl View for CurrentBid {
    type V = CurrentBidView;

    open spec fn view(&self) -> CurrentBidView {
        CurrentBidView { bid_price: self.bid_price, bidder: self.bidder@ }
    }
}

impl Clone for CurrentBid {
    fn clone(&self) -> (copy: Self)
        ensures
            copy@ == self@,
    {
        CurrentBid { bid_price: self.bid_price, bidder: self.bidder.clone() }
    }
}

/// One entry of the bid log. Entries are appended and never changed.
#[derive(Debug, PartialEq, Eq)]
pub struct Bid {
    pub id: Option<String>,
    pub item_id: String,
    pub bidder: String,
    pub bid_price: i64,
    pub timestamp: i64,
}

pub ghost struct BidView {
    pub id: Option<Seq<char>>,
    pub item_id: Seq<char>,
    pub bidder: Seq<char>,
    pub bid_price: i64,
    pub timestamp: i64,
}

impl View for Bid {
    type V = BidView;

    open spec fn view(&self) -> BidView {
        BidView {
            id: match self.id {
                Some(id) => Some(id@),
                None => None,
            },
            item_id: self.item_id@,
            bidder: self.bidder@,
            bid_price: self.bid_price,
            timestamp: self.timestamp,
        }
    }
}

impl Bid {
    /// A new log entry, not yet stored: it has no identifier of its own.
    pub fn record(item_id: &str, bidder: &str, bid_price: i64, timestamp: i64) -> (bid: Bid)
        ensures
            bid@ == (BidView {
                id: None,
                item_id: item_id@,
                bidder: bidder@,
                bid_price,
                timestamp,
            }),
    {
        Bid {
            id: None,
            item_id: String::from_str(item_id),
            bidder: String::from_str(bidder),
            bid_price,
            timestamp,
        }
    }
}

/// Why a bid was not placed.
#[derive(Clone, Copy, Debug, PartialEq, Eq, Structural)]
pub enum BidError {
    /// The increment is zero or negative.
    InvalidIncrement,
    /// No item has the identifier.
    ItemNotFound,
    /// The item is not active.
    ItemNotBiddable,
    /// The log holds bids for the item, but the cache holds no leading price.
    CurrentBidMissing,
    /// The leading price and the increment add up to more than a price can hold.
    PriceOutOfRange,
    /// The item or the log could not be read.
    StoreReadFailed,
    /// The leading price could not be read.
    CacheReadFailed,
    /// The new leading price could not be written; nothing was appended.
    CacheWriteFailed,
    /// The bid could not be appended; the cache already holds its price.
    LogAppendFailed,
}

impl BidError {
    pub open spec fn kind_of(self) -> ErrorKind {
        match self {
            BidError::InvalidIncrement => ErrorKind::InvalidInput,
            BidError::ItemNotFound => ErrorKind::NotFound,
            BidError::ItemNotBiddable => ErrorKind::StateConflict,
            BidError::CurrentBidMissing => ErrorKind::CacheDivergence,
            BidError::PriceOutOfRange => ErrorKind::InvalidInput,
            BidError::StoreReadFailed => ErrorKind::StoreFailure,
            BidError::CacheReadFailed => ErrorKind::CacheFailure,
            BidError::CacheWriteFailed => ErrorKind::CacheFailure,
            BidError::LogAppendFailed => ErrorKind::StoreFailure,
        }
    }

    pub open spec fn message_of(self) -> Seq<char> {
        match self {
            BidError::InvalidIncrement => "Invalid incrementation to bid price"@,
            BidError::ItemNotFound => "Item not found"@,
            BidError::ItemNotBiddable => "Item is not available for bidding"@,
            BidError::CurrentBidMissing => "Bids not found despite not being initial bid"@,
            BidError::PriceOutOfRange => "Bid price out of range"@,
            BidError::StoreReadFailed => "Database error"@,
            BidError::CacheReadFailed => "Failed to retrieve current bid"@,
            BidError::CacheWriteFailed => "Failed to store bid in cache"@,
            BidError::LogAppendFailed => "Failed to record bid"@,
        }
    }

    pub fn kind(&self) -> (kind: ErrorKind)
        ensures
            kind == self.kind_of(),
    {
        match self {
            BidError::InvalidIncrement => ErrorKind::InvalidInput,
            BidError::ItemNotFound => ErrorKind::NotFound,
            BidError::ItemNotBiddable => ErrorKind::StateConflict,
            BidError::CurrentBidMissing => ErrorKind::CacheDivergence,
            BidError::PriceOutOfRange => ErrorKind::InvalidInput,
            BidError::StoreReadFailed => ErrorKind::StoreFailure,
            BidError::CacheReadFailed => ErrorKind::CacheFailure,
            BidError::CacheWriteFailed => ErrorKind::CacheFailure,
            BidError::LogAppendFailed => ErrorKind::StoreFailure,
        }
    }

    pub fn message(&self) -> (text: String)
        ensures
            text@ == self.message_of(),
    {
        match self {
            BidError::InvalidIncrement => String::from_str("Invalid incrementation to bid price"),
            BidError::ItemNotFound => String::from_str("Item not found"),
            BidError::ItemNotBiddable => String::from_str("Item is not available for bidding"),
            BidError::CurrentBidMissing => String::from_str(
                "Bids not found despite not being initial bid",
            ),
            BidError::PriceOutOfRange => String::from_str("Bid price out of range"),
            BidError::StoreReadFailed => String::from_str("Database error"),
            BidError::CacheReadFailed => String::from_str("Failed to retrieve current bid"),
            BidError::CacheWriteFailed => String::from_str("Failed to store bid in cache"),
            BidError::LogAppendFailed => String::from_str("Failed to record bid"),
        }
    }
}

/// How far a bid has come.
#[derive(Clone, Copy, Debug, PartialEq, Eq)]
pub enum BidPhase {
    /// The item is being looked up.
    FindItem,
    /// The item is active; the log is asked whether it holds a bid for it.
    ProbeLog { base_price: i64 },
    /// The log holds a bid; the leading price is being read.
    ReadCurrent,
    /// The price is fixed and is being written to the cache.
    WriteCurrent { price: i64 },
    /// The cache holds the price; the bid is being appended to the log.
    AppendLog { price: i64 },
    /// The bid is recorded; the price is being announced.
    Announce { price: i64 },
    /// Nothing is left to do.
    Settled { outcome: Result<i64, BidError> },
}

/// What came of the call that the flow asked for.
#[derive(Clone, Copy, Debug, PartialEq, Eq, Structural)]
pub enum BidEvent {
    ItemFound { status: ItemStatus, base_price: i64 },
    ItemAbsent,
    ItemLookupFailed,
    LogHasBids,
    LogEmpty,
    LogProbeFailed,
    CurrentBidRead { bid_price: i64 },
    CurrentBidAbsent,
    CurrentBidReadFailed,
    CurrentBidWritten,
    CurrentBidWriteFailed,
    BidAppended,
    BidAppendFailed,
    Published,
    PublishFailed,
}

/// The call that the service has to make next.
#[derive(Debug, PartialEq, Eq)]
pub enum BidAction {
    /// Look the item up in the store.
    FindItem { item_id: String },
    /// Ask the store for any bid on the item.
    FindAnyBid { item_id: String },
    /// Read the leading price from the cache.
    ReadCurrentBid { key: String },
    /// Write the leading price to the cache, without an expiry.
    WriteCurrentBid { key: String, bid: CurrentBid },
    /// Append the bid to the log.
    AppendBid { item_id: String, bidder: String, bid_price: i64 },
    /// Announce the price on the channel of the item.
    Publish { channel: String, price: i64 },
    /// Answer the request.
    Finish { outcome: Result<i64, BidError> },
}

pub ghost enum BidActionView {
    FindItem { item_id: Seq<char> },
    FindAnyBid { item_id: Seq<char> },
    ReadCurrentBid { key: Seq<char> },
    WriteCurrentBid { key: Seq<char>, bid: CurrentBidView },
    AppendBid { item_id: Seq<char>, bidder: Seq<char>, bid_price: i64 },
    Publish { channel: Seq<char>, price: i64 },
    Finish { outcome: Result<i64, BidError> },
}

impl View for BidAction {
    type V = BidActionView;

    open spec fn view(&self) -> BidActionView {
        match self {
            BidAction::FindItem { item_id } => BidActionView::FindItem { item_id: item_id@ },
            BidAction::FindAnyBid { item_id } => BidActionView::FindAnyBid { item_id: item_id@ },
            BidAction::ReadCurrentBid { key } => BidActionView::ReadCurrentBid { key: key@ },
            BidAction::WriteCurrentBid { key, bid } => BidActionView::WriteCurrentBid {
                key: key@,
                bid: bid@,
            },
            BidAction::AppendBid { item_id, bidder, bid_price } => BidActionView::AppendBid {
                item_id: item_id@,
                bidder: bidder@,
                bid_price: *bid_price,
            },
            BidAction::Publish { channel, price } => BidActionView::Publish {
                channel: channel@,
                price: *price,
            },
            BidAction::Finish { outcome } => BidActionView::Finish { outcome: *outcome },
        }
    }
}

/// The phase in which a request starts: a request with an increment that
/// is not positive is settled before anything is looked up.
pub open spec fn first_phase(increment: i64) -> BidPhase {
    if increment <= 0 {
        BidPhase::Settled { outcome: Err(BidError::InvalidIncrement) }
    } else {
        BidPhase::FindItem
    }
}

/// The price that follows a leading price, if a price can hold it.
pub open spec fn raised(bid_price: i64, increment: i64) -> Option<i64> {
    if i64::MIN <= bid_price + increment <= i64::MAX {
        Some((bid_price + increment) as i64)
    } else {
        None
    }
}

/// The phase that follows `phase` when `event` comes in. An event that does
/// not answer the pending call leaves the phase as it is.
pub open spec fn phase_after(phase: BidPhase, increment: i64, event: BidEvent) -> BidPhase {
    match (phase, event) {
        (BidPhase::FindItem, BidEvent::ItemFound { status, base_price }) => if status.biddable() {
            BidPhase::ProbeLog { base_price }
        } else {
            BidPhase::Settled { outcome: Err(BidError::ItemNotBiddable) }
        },
        (BidPhase::FindItem, BidEvent::ItemAbsent) => BidPhase::Settled {
            outcome: Err(BidError::ItemNotFound),
        },
        (BidPhase::FindItem, BidEvent::ItemLookupFailed) => BidPhase::Settled {
            outcome: Err(BidError::StoreReadFailed),
        },
        (BidPhase::ProbeLog { base_price }, BidEvent::LogEmpty) => BidPhase::WriteCurrent {
            price: base_price,
        },
        (BidPhase::ProbeLog { .. }, BidEvent::LogHasBids) => BidPhase::ReadCurrent,
        (BidPhase::ProbeLog { .. }, BidEvent::LogProbeFailed) => BidPhase::Settled {
            outcome: Err(BidError::StoreReadFailed),
        },
        (BidPhase::ReadCurrent, BidEvent::CurrentBidRead { bid_price }) => match raised(
            bid_price,
            increment,
        ) {
            Some(price) => BidPhase::WriteCurrent { price },
            None => BidPhase::Settled { outcome: Err(BidError::PriceOutOfRange) },
        },
        (BidPhase::ReadCurrent, BidEvent::CurrentBidAbsent) => BidPhase::Settled {
            outcome: Err(BidError::CurrentBidMissing),
        },
        (BidPhase::ReadCurrent, BidEvent::CurrentBidReadFailed) => BidPhase::Settled {
            outcome: Err(BidError::CacheReadFailed),
        },
        (BidPhase::WriteCurrent { price }, BidEvent::CurrentBidWritten) => BidPhase::AppendLog {
            price,
        },
        (BidPhase::WriteCurrent { .. }, BidEvent::CurrentBidWriteFailed) => BidPhase::Settled {
            outcome: Err(BidError::CacheWriteFailed),
        },
        (BidPhase::AppendLog { price }, BidEvent::BidAppended) => BidPhase::Announce { price },
        (BidPhase::AppendLog { .. }, BidEvent::BidAppendFailed) => BidPhase::Settled {
            outcome: Err(BidError::LogAppendFailed),
        },
        (BidPhase::Announce { price }, BidEvent::Published) => BidPhase::Settled {
            outcome: Ok(price),
        },
        (BidPhase::Announce { price }, BidEvent::PublishFailed) => BidPhase::Settled {
            outcome: Ok(price),
        },
        _ => phase,
    }
}

/// The call that is due in `phase` for a bid of `bidder` on `item_id`.
pub open spec fn action_in(item_id: Seq<char>, bidder: Seq<char>, phase: BidPhase) -> BidActionView {
    match phase {
        BidPhase::FindItem => BidActionView::FindItem { item_id },
        BidPhase::ProbeLog { .. } => BidActionView::FindAnyBid { item_id },
        BidPhase::ReadCurrent => BidActionView::ReadCurrentBid { key: current_bid_key(item_id) },
        BidPhase::WriteCurrent { price } => BidActionView::WriteCurrentBid {
            key: current_bid_key(item_id),
            bid: CurrentBidView { bid_price: price, bidder },
        },
        BidPhase::AppendLog { price } => BidActionView::AppendBid {
            item_id,
            bidder,
            bid_price: price,
        },
        BidPhase::Announce { price } => BidActionView::Publish { channel: item_id, price },
        BidPhase::Settled { outcome } => BidActionView::Finish { outcome },
    }
}

/// One request to place a bid, on its way through the ledger.
#[derive(Debug, PartialEq, Eq)]
pub struct BidFlow {
    pub item_id: String,
    pub bidder: String,
    pub increment: i64,
    pub phase: BidPhase,
}

pub ghost struct BidFlowView {
    pub item_id: Seq<char>,
    pub bidder: Seq<char>,
    pub increment: i64,
    pub phase: BidPhase,
}

impl View for BidFlow {
    type V = BidFlowView;

    open spec fn view(&self) -> BidFlowView {
        BidFlowView {
            item_id: self.item_id@,
            bidder: self.bidder@,
            increment: self.increment,
            phase: self.phase,
        }
    }
}

impl BidFlowView {
    /// The call that is due.
    pub open spec fn pending(self) -> BidActionView {
        action_in(self.item_id, self.bidder, self.phase)
    }

    /// The flow after `event`.
    pub open spec fn after(self, event: BidEvent) -> BidFlowView {
        BidFlowView { phase: phase_after(self.phase, self.increment, event), ..self }
    }

    /// The result of the request, once nothing is left to do.
    pub open spec fn outcome(self) -> Option<Result<i64, BidError>> {
        match self.phase {
            BidPhase::Settled { outcome } => Some(outcome),
            _ => None,
        }
    }
}

impl BidFlow {
    /// Takes up a request.
    pub fn open(item_id: &str, bidder: &str, increment: i64) -> (flow: BidFlow)
        ensures
            flow@ == (BidFlowView {
                item_id: item_id@,
                bidder: bidder@,
                increment,
                phase: first_phase(increment),
            }),
    {
        let phase = if increment <= 0 {
            BidPhase::Settled { outcome: Err(BidError::InvalidIncrement) }
        } else {
            BidPhase::FindItem
        };
        BidFlow {
            item_id: String::from_str(item_id),
            bidder: String::from_str(bidder),
            increment,
            phase,
        }
    }

    /// The call that the service has to make next.
    pub fn pending(&self) -> (action: BidAction)
        ensures
            action@ == self@.pending(),
    {
        match self.phase {
            BidPhase::FindItem => BidAction::FindItem { item_id: self.item_id.clone() },
            BidPhase::ProbeLog { .. } => BidAction::FindAnyBid { item_id: self.item_id.clone() },
            BidPhase::ReadCurrent => BidAction::ReadCurrentBid {
                key: current_bid_cache_key(self.item_id.as_str()),
            },
            BidPhase::WriteCurrent { price } => BidAction::WriteCurrentBid {
                key: current_bid_cache_key(self.item_id.as_str()),
                bid: CurrentBid { bid_price: price, bidder: self.bidder.clone() },
            },
            BidPhase::AppendLog { price } => BidAction::AppendBid {
                item_id: self.item_id.clone(),
                bidder: self.bidder.clone(),
                bid_price: price,
            },
            BidPhase::Announce { price } => BidAction::Publish {
                channel: self.item_id.clone(),
                price,
            },
            BidPhase::Settled { outcome } => BidAction::Finish { outcome },
        }
    }

    /// Takes in what came of the pending call.
    pub fn advance(self, event: BidEvent) -> (next: BidFlow)
        ensures
            next@ == self@.after(event),
    {
        let phase = match (self.phase, event) {
            (BidPhase::FindItem, BidEvent::ItemFound { status, base_price }) => {
                if status.is_biddable() {
                    BidPhase::ProbeLog { base_price }
                } else {
                    BidPhase::Settled { outcome: Err(BidError::ItemNotBiddable) }
                }
            },
            (BidPhase::FindItem, BidEvent::ItemAbsent) => BidPhase::Settled {
                outcome: Err(BidError::ItemNotFound),
            },
            (BidPhase::FindItem, BidEvent::ItemLookupFailed) => BidPhase::Settled {
                outcome: Err(BidError::StoreReadFailed),
            },
            (BidPhase::ProbeLog { base_price }, BidEvent::LogEmpty) => BidPhase::WriteCurrent {
                price: base_price,
            },
            (BidPhase::ProbeLog { .. }, BidEvent::LogHasBids) => BidPhase::ReadCurrent,
            (BidPhase::ProbeLog { .. }, BidEvent::LogProbeFailed) => BidPhase::Settled {
                outcome: Err(BidError::StoreReadFailed),
            },
            (BidPhase::ReadCurrent, BidEvent::CurrentBidRead { bid_price }) => {
                match bid_price.checked_add(self.increment) {
                    Some(price) => BidPhase::WriteCurrent { price },
                    None => BidPhase::Settled { outcome: Err(BidError::PriceOutOfRange) },
                }
            },
            (BidPhase::ReadCurrent, BidEvent::CurrentBidAbsent) => BidPhase::Settled {
                outcome: Err(BidError::CurrentBidMissing),
            },
            (BidPhase::ReadCurrent, BidEvent::CurrentBidReadFailed) => BidPhase::Settled {
                outcome: Err(BidError::CacheReadFailed),
            },
            (BidPhase::WriteCurrent { price }, BidEvent::CurrentBidWritten) => BidPhase::AppendLog {
                price,
            },
            (BidPhase::WriteCurrent { .. }, BidEvent::CurrentBidWriteFailed) => BidPhase::Settled {
                outcome: Err(BidError::CacheWriteFailed),
            },
            (BidPhase::AppendLog { price }, BidEvent::BidAppended) => BidPhase::Announce { price },
            (BidPhase::AppendLog { .. }, BidEvent::BidAppendFailed) => BidPhase::Settled {
                outcome: Err(BidError::LogAppendFailed),
            },
            (BidPhase::Announce { price }, BidEvent::Published) => BidPhase::Settled {
                outcome: Ok(price),
            },
            (BidPhase::Announce { price }, BidEvent::PublishFailed) => BidPhase::Settled {
                outcome: Ok(price),
            },
            (phase, _) => phase,
        };
        BidFlow { item_id: self.item_id, bidder: self.bidder, increment: self.increment, phase }
    }

    /// The result of the request, once nothing is left to do.
    pub fn outcome(&self) -> (result: Option<Result<i64, BidError>>)
        ensures
            result == self@.outcome(),
    {
        match self.phase {
            BidPhase::Settled { outcome } => Some(outcome),
            _ => None,
        }
    }
}

} // verus!
