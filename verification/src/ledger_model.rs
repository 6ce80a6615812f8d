//! A model of the store and the cache as the price ledger sees them, and
//! what follows for the prices when every call succeeds: the first bid on
//! an item is placed at its base price, each later one at the leading price
//! plus the increment, and the cache keeps the price of the last logged bid.

use vstd::prelude::*;
use crate::catalog::ItemStatus;
use crate::errors::ErrorKind;
use crate::keys::{current_bid_key, lemma_prefixed_injective};
use crate::ledger::{
    first_phase, raised, BidActionView, BidError, BidEvent, BidFlowView, BidPhase, CurrentBidView,
};

verus! {

/// What the ledger reads of an item.
pub ghost struct Listing {
    pub status: ItemStatus,
    pub base_price: i64,
}

/// One appended bid.
pub ghost struct LoggedBid {
    pub item_id: Seq<char>,
    pub bidder: Seq<char>,
    pub bid_price: i64,
}

/// The state that the calls of the ledger read and change.
pub ghost struct Market {
    /// The stored items, by identifier.
    pub items: Map<Seq<char>, Listing>,
    /// The bid log, oldest entry first.
    pub log: Seq<LoggedBid>,
    /// The cached leading prices, by cache key.
    pub leading: Map<Seq<char>, CurrentBidView>,
    /// The announced prices with their channels, oldest first.
    pub announced: Seq<(Seq<char>, i64)>,
}

/// The price of the latest bid on `item_id` in `log`, if there is one.
pub open spec fn last_price(log: Seq<LoggedBid>, item_id: Seq<char>) -> Option<i64>
    decreases log.len(),
{
    if log.len() == 0 {
        None
    } else if log.last().item_id == item_id {
        Some(log.last().bid_price)
    } else {
        last_price(log.drop_last(), item_id)
    }
}

impl Market {
    /// What a call returns when store and cache work.
    pub open spec fn answer(self, action: BidActionView) -> BidEvent {
        match action {
            BidActionView::FindItem { item_id } => if self.items.dom().contains(item_id) {
                BidEvent::ItemFound {
                    status: self.items[item_id].status,
                    base_price: self.items[item_id].base_price,
                }
            } else {
                BidEvent::ItemAbsent
            },
            BidActionView::FindAnyBid { item_id } => if last_price(self.log, item_id) is Some {
                BidEvent::LogHasBids
            } else {
                BidEvent::LogEmpty
            },
            BidActionView::ReadCurrentBid { key } => if self.leading.dom().contains(key) {
                BidEvent::CurrentBidRead { bid_price: self.leading[key].bid_price }
            } else {
                BidEvent::CurrentBidAbsent
            },
            BidActionView::WriteCurrentBid { .. } => BidEvent::CurrentBidWritten,
            BidActionView::AppendBid { .. } => BidEvent::BidAppended,
            BidActionView::Publish { .. } => BidEvent::Published,
            BidActionView::Finish { .. } => BidEvent::Published,
        }
    }

    /// What a call leaves behind when store and cache work.
    pub open spec fn apply(self, action: BidActionView) -> Market {
        match action {
            BidActionView::WriteCurrentBid { key, bid } => Market {
                leading: self.leading.insert(key, bid),
                ..self
            },
            BidActionView::AppendBid { item_id, bidder, bid_price } => Market {
                log: self.log.push(LoggedBid { item_id, bidder, bid_price }),
                ..self
            },
            BidActionView::Publish { channel, price } => Market {
                announced: self.announced.push((channel, price)),
                ..self
            },
            _ => self,
        }
    }

    /// The cache holds, for every item with a logged bid, the price of the
    /// latest one.
    pub open spec fn consistent(self) -> bool {
        forall|item_id: Seq<char>| #[trigger]
            last_price(self.log, item_id) is Some ==> {
                &&& self.leading.dom().contains(current_bid_key(item_id))
                &&& self.leading[current_bid_key(item_id)].bid_price == last_price(
                    self.log,
                    item_id,
                )->0
            }
    }
}

/// Makes the pending call of `flow` on `market` and hands the flow what
/// came of it, at most `fuel` times or until the flow is settled.
pub open spec fn settle(flow: BidFlowView, market: Market, fuel: nat) -> (BidFlowView, Market)
    decreases fuel,
{
    if fuel == 0 || flow.phase is Settled {
        (flow, market)
    } else {
        let action = flow.pending();
        settle(flow.after(market.answer(action)), market.apply(action), (fuel - 1) as nat)
    }
}

/// A request taken from its start as far as six calls take it: no request
/// needs more.
pub open spec fn place_bid(
    market: Market,
    item_id: Seq<char>,
    bidder: Seq<char>,
    increment: i64,
) -> (BidFlowView, Market) {
    settle(
        BidFlowView { item_id, bidder, increment, phase: first_phase(increment) },
        market,
        6,
    )
}

/// The market after a bid of `bid_price` was placed: the price is cached,
/// logged and announced.
pub open spec fn with_bid(
    market: Market,
    item_id: Seq<char>,
    bidder: Seq<char>,
    bid_price: i64,
) -> Market {
    Market {
        items: market.items,
        log: market.log.push(LoggedBid { item_id, bidder, bid_price }),
        leading: market.leading.insert(
            current_bid_key(item_id),
            CurrentBidView { bid_price, bidder },
        ),
        announced: market.announced.push((item_id, bid_price)),
    }
}

/// What a request comes to, stated without the flow: each refusal with the
/// condition it stands for, in the order in which they are tested.
pub open spec fn expected_outcome(market: Market, item_id: Seq<char>, increment: i64) -> Result<
    i64,
    BidError,
> {
    if increment <= 0 {
        Err(BidError::InvalidIncrement)
    } else if !market.items.dom().contains(item_id) {
        Err(BidError::ItemNotFound)
    } else if market.items[item_id].status != ItemStatus::ACTIVE {
        Err(BidError::ItemNotBiddable)
    } else if last_price(market.log, item_id) is None {
        Ok(market.items[item_id].base_price)
    } else if !market.leading.dom().contains(current_bid_key(item_id)) {
        Err(BidError::CurrentBidMissing)
    } else {
        match raised(market.leading[current_bid_key(item_id)].bid_price, increment) {
            Some(price) => Ok(price),
            None => Err(BidError::PriceOutOfRange),
        }
    }
}

/// With store and cache at work every request is settled within six calls,
/// with the outcome that the conditions give. A placed bid is cached,
/// logged and announced at its price; a refused one changes nothing.
pub proof fn lemma_place_bid(market: Market, item_id: Seq<char>, bidder: Seq<char>, increment: i64)
    ensures
        place_bid(market, item_id, bidder, increment).0.outcome() == Some(
            expected_outcome(market, item_id, increment),
        ),
        match expected_outcome(market, item_id, increment) {
            Ok(price) => place_bid(market, item_id, bidder, increment).1 == with_bid(
                market,
                item_id,
                bidder,
                price,
            ),
            Err(_) => place_bid(market, item_id, bidder, increment).1 == market,
        },
{
    reveal_with_fuel(settle, 8);
}

/// The first bid on an active item is placed at the base price of the item.
pub proof fn lemma_first_bid_at_base_price(
    market: Market,
    item_id: Seq<char>,
    bidder: Seq<char>,
    increment: i64,
)
    requires
        increment > 0,
        market.items.dom().contains(item_id),
        market.items[item_id].status == ItemStatus::ACTIVE,
        last_price(market.log, item_id) is None,
    ensures
        place_bid(market, item_id, bidder, increment).0.outcome() == Some(
            Ok::<i64, BidError>(market.items[item_id].base_price),
        ),
        last_price(place_bid(market, item_id, bidder, increment).1.log, item_id) == Some(
            market.items[item_id].base_price,
        ),
{
    lemma_place_bid(market, item_id, bidder, increment);
}

/// Every later bid that is placed comes to the price of the bid before it
/// plus the increment, and so to more than that price.
pub proof fn lemma_next_bid_adds_increment(
    market: Market,
    item_id: Seq<char>,
    bidder: Seq<char>,
    increment: i64,
    price: i64,
)
    requires
        market.consistent(),
        last_price(market.log, item_id) is Some,
        place_bid(market, item_id, bidder, increment).0.outcome() == Some(
            Ok::<i64, BidError>(price),
        ),
    ensures
        price == last_price(market.log, item_id)->0 + increment,
        price > last_price(market.log, item_id)->0,
        last_price(place_bid(market, item_id, bidder, increment).1.log, item_id) == Some(price),
{
    lemma_place_bid(market, item_id, bidder, increment);
}

/// Whatever a request comes to, the cache still holds the price of the
/// latest logged bid of every item.
pub proof fn lemma_place_bid_keeps_consistent(
    market: Market,
    item_id: Seq<char>,
    bidder: Seq<char>,
    increment: i64,
)
    requires
        market.consistent(),
    ensures
        place_bid(market, item_id, bidder, increment).1.consistent(),
{
    lemma_place_bid(market, item_id, bidder, increment);
    let after = place_bid(market, item_id, bidder, increment).1;
    match expected_outcome(market, item_id, increment) {
        Ok(price) => {
            assert forall|other: Seq<char>| #[trigger]
                last_price(after.log, other) is Some implies {
                &&& after.leading.dom().contains(current_bid_key(other))
                &&& after.leading[current_bid_key(other)].bid_price == last_price(
                    after.log,
                    other,
                )->0
            } by {
                assert(after.log.drop_last() =~= market.log);
                if other != item_id {
                    if current_bid_key(other) == current_bid_key(item_id) {
                        lemma_prefixed_injective("current_bid"@, other, item_id);
                    }
                    assert(last_price(after.log, other) == last_price(market.log, other));
                }
            }
        },
        Err(_) => {},
    }
}

/// A request with an increment that is not positive is refused as invalid
/// input, whatever the item; a request on an item that is not active is
/// refused as a conflict with the state of the item.
pub proof fn lemma_refusals(market: Market, item_id: Seq<char>, bidder: Seq<char>, increment: i64)
    ensures
        increment <= 0 ==> {
            &&& place_bid(market, item_id, bidder, increment).0.outcome() == Some(
                Err::<i64, BidError>(BidError::InvalidIncrement),
            )
            &&& BidError::InvalidIncrement.kind_of() == ErrorKind::InvalidInput
        },
        increment > 0 && market.items.dom().contains(item_id) && market.items[item_id].status
            != ItemStatus::ACTIVE ==> {
            &&& place_bid(market, item_id, bidder, increment).0.outcome() == Some(
                Err::<i64, BidError>(BidError::ItemNotBiddable),
            )
            &&& BidError::ItemNotBiddable.kind_of() == ErrorKind::StateConflict
        },
        place_bid(market, item_id, bidder, increment).0.outcome() matches Some(Err(_))
            ==> place_bid(market, item_id, bidder, increment).1 == market,
{
    lemma_place_bid(market, item_id, bidder, increment);
}

/// A bid is appended to the log only after the cache took its price, and
/// announced only after the log took it: whatever the events, a flow comes
/// to an append from a confirmed cache write alone, and to an announcement
/// from a confirmed append alone.
pub proof fn lemma_order_of_effects(flow: BidFlowView, event: BidEvent)
    ensures
        flow.after(event).phase is AppendLog && !(flow.phase is AppendLog) ==> flow.phase
            is WriteCurrent && event == BidEvent::CurrentBidWritten,
        flow.after(event).phase is Announce && !(flow.phase is Announce) ==> flow.phase
            is AppendLog && event == BidEvent::BidAppended,
        flow.after(event).outcome() matches Some(Ok(_)) && !(flow.phase is Settled) ==> flow.phase
            is Announce,
        flow.phase is Settled ==> flow.after(event) == flow,
{
}

/// Nothing keeps two requests on one item apart. Where both read the
/// leading price before either writes, each is placed at that price plus
/// its own increment: the log takes both bids, and the cache is left with
/// the price of the request that wrote last, which may be the lower one.
pub proof fn lemma_bids_that_overlap(
    market: Market,
    item_id: Seq<char>,
    first: Seq<char>,
    first_increment: i64,
    second: Seq<char>,
    second_increment: i64,
)
    requires
        first_increment > 0,
        second_increment > 0,
        market.items.dom().contains(item_id),
        market.items[item_id].status == ItemStatus::ACTIVE,
        last_price(market.log, item_id) is Some,
        market.leading.dom().contains(current_bid_key(item_id)),
        market.leading[current_bid_key(item_id)].bid_price + first_increment <= i64::MAX,
        market.leading[current_bid_key(item_id)].bid_price + second_increment <= i64::MAX,
    ensures
        ({
            let leading = market.leading[current_bid_key(item_id)].bid_price;
            let start_first = BidFlowView {
                item_id,
                bidder: first,
                increment: first_increment,
                phase: first_phase(first_increment),
            };
            let start_second = BidFlowView {
                item_id,
                bidder: second,
                increment: second_increment,
                phase: first_phase(second_increment),
            };
            let (read_first, after_first_read) = settle(start_first, market, 3);
            let (read_second, after_reads) = settle(start_second, after_first_read, 3);
            let (done_first, after_first) = settle(read_first, after_reads, 3);
            let (done_second, after_both) = settle(read_second, after_first, 3);
            &&& after_reads == market
            &&& done_first.outcome() == Some(
                Ok::<i64, BidError>((leading + first_increment) as i64),
            )
            &&& done_second.outcome() == Some(
                Ok::<i64, BidError>((leading + second_increment) as i64),
            )
            &&& after_both.log == market.log.push(
                LoggedBid {
                    item_id,
                    bidder: first,
                    bid_price: (leading + first_increment) as i64,
                },
            ).push(
                LoggedBid {
                    item_id,
                    bidder: second,
                    bid_price: (leading + second_increment) as i64,
                },
            )
            &&& after_both.leading[current_bid_key(item_id)].bid_price == leading
                + second_increment
        }),
{
    reveal_with_fuel(settle, 5);
}

/// Whether `event` is an answer to the call that is due in `phase`.
pub open spec fn answers(phase: BidPhase, event: BidEvent) -> bool {
    match phase {
        BidPhase::FindItem => event is ItemFound || event is ItemAbsent || event is ItemLookupFailed,
        BidPhase::ProbeLog { .. } => event is LogHasBids || event is LogEmpty || event
            is LogProbeFailed,
        BidPhase::ReadCurrent => event is CurrentBidRead || event is CurrentBidAbsent || event
            is CurrentBidReadFailed,
        BidPhase::WriteCurrent { .. } => event is CurrentBidWritten || event
            is CurrentBidWriteFailed,
        BidPhase::AppendLog { .. } => event is BidAppended || event is BidAppendFailed,
        BidPhase::Announce { .. } => event is Published || event is PublishFailed,
        BidPhase::Settled { .. } => false,
    }
}

/// The most calls that a request can still ask for.
pub open spec fn calls_left(phase: BidPhase) -> nat {
    match phase {
        BidPhase::FindItem => 6,
        BidPhase::ProbeLog { .. } => 5,
        BidPhase::ReadCurrent => 4,
        BidPhase::WriteCurrent { .. } => 3,
        BidPhase::AppendLog { .. } => 2,
        BidPhase::Announce { .. } => 1,
        BidPhase::Settled { .. } => 0,
    }
}

/// Whatever store and cache answer, failures included, a request is
/// settled after six calls at most: each answer leaves fewer to make.
pub proof fn lemma_each_answer_brings_the_end_nearer(flow: BidFlowView, event: BidEvent)
    requires
        answers(flow.phase, event),
    ensures
        calls_left(flow.after(event).phase) < calls_left(flow.phase),
        calls_left(flow.phase) == 0 <==> flow.outcome() is Some,
{
}

/// A price is written to the cache and to the log only as the price that
/// the flow fixed: the base price that the store gave for the first bid,
/// and the leading price that the cache gave plus the increment for a
/// later one. A bid that is placed is placed at the price that was logged.
pub proof fn lemma_price_is_fixed_once(flow: BidFlowView, event: BidEvent)
    ensures
        match (flow.phase, flow.after(event).phase) {
            (BidPhase::ProbeLog { base_price }, BidPhase::WriteCurrent { price }) => event
                == BidEvent::LogEmpty && price == base_price,
            (BidPhase::ReadCurrent, BidPhase::WriteCurrent { price }) => match event {
                BidEvent::CurrentBidRead { bid_price } => price == bid_price + flow.increment,
                _ => false,
            },
            (BidPhase::WriteCurrent { price }, BidPhase::WriteCurrent { price: kept }) => kept
                == price,
            (_, BidPhase::WriteCurrent { .. }) => false,
            (BidPhase::WriteCurrent { price }, BidPhase::AppendLog { price: logged }) => logged
                == price,
            (BidPhase::AppendLog { price }, BidPhase::AppendLog { price: kept }) => kept == price,
            (_, BidPhase::AppendLog { .. }) => false,
            (BidPhase::AppendLog { price }, BidPhase::Announce { price: announced }) => announced
                == price,
            (BidPhase::Announce { price }, BidPhase::Announce { price: kept }) => kept == price,
            (_, BidPhase::Announce { .. }) => false,
            (BidPhase::Announce { price }, BidPhase::Settled { outcome: Ok(placed) }) => placed
                == price,
            (BidPhase::Settled { outcome }, BidPhase::Settled { outcome: kept }) => kept == outcome,
            (_, BidPhase::Settled { outcome: Ok(_) }) => false,
            _ => true,
        },
{
}

} // verus!
