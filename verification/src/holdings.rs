//! The items that the ledger holds for a user.
//!
//! The ledger names the items; their detail records are then read through
//! the cache together.

use vstd::prelude::*;
use crate::batch::{
    joined_items, BatchAction, BatchActionView, BatchEvent, BatchEventView, ItemsRead,
    ItemsReadView,
};
use crate::catalog::{Item, ItemView};
use crate::errors::ErrorKind;
use crate::upstream::{classify_holdings, holdings_of, HoldingsVerdict, HoldingsVerdictView};

verus! {

/// What the ledger sent back, or that it sent nothing that could be read.
#[derive(Debug, PartialEq, Eq)]
pub enum HoldingsAnswer {
    /// The ledger could not be reached.
    Unreachable { detail: String },
    /// The ledger answered, but not in the agreed form.
    Unreadable { detail: String },
    /// The ledger answered in the agreed form.
    Reply { status: String, item_ids: Option<Vec<String>>, message: Option<String> },
}

/// Why the items of a user cannot be given.
#[derive(Debug, PartialEq, Eq)]
pub enum HoldingsError {
    Unreachable { detail: String },
    Unreadable { detail: String },
    /// The ledger reported success but sent no list.
    Incomplete,
    /// The ledger refused the request; the message is for the caller.
    Rejected { message: String },
    /// The ledger answered with a status that is not known.
    Unexpected,
    /// The store could not be read.
    StoreFailure,
}

pub ghost enum HoldingsErrorView {
    Unreachable { detail: Seq<char> },
    Unreadable { detail: Seq<char> },
    Incomplete,
    Rejected { message: Seq<char> },
    Unexpected,
    StoreFailure,
}

impl View for HoldingsError {
    type V = HoldingsErrorView;

    open spec fn view(&self) -> HoldingsErrorView {
        match self {
            HoldingsError::Unreachable { detail } => HoldingsErrorView::Unreachable {
                detail: detail@,
            },
            HoldingsError::Unreadable { detail } => HoldingsErrorView::Unreadable { detail: detail@ },
            HoldingsError::Incomplete => HoldingsErrorView::Incomplete,
            HoldingsError::Rejected { message } => HoldingsErrorView::Rejected { message: message@ },
            HoldingsError::Unexpected => HoldingsErrorView::Unexpected,
            HoldingsError::StoreFailure => HoldingsErrorView::StoreFailure,
        }
    }
}

impl DeepView for HoldingsError {
    type V = HoldingsErrorView;

    open spec fn deep_view(&self) -> HoldingsErrorView {
        self@
    }
}

impl HoldingsErrorView {
    pub open spec fn kind_of(self) -> ErrorKind {
        match self {
            HoldingsErrorView::Rejected { .. } => ErrorKind::InvalidInput,
            HoldingsErrorView::StoreFailure => ErrorKind::StoreFailure,
            _ => ErrorKind::UpstreamFailure,
        }
    }

    /// What a caller reads.
    pub open spec fn text(self) -> Seq<char> {
        match self {
            HoldingsErrorView::Unreachable { detail } => "Blockchain API submission failed: "@
                + detail,
            HoldingsErrorView::Unreadable { detail } => "Failed to parse blockchain response: "@
                + detail,
            HoldingsErrorView::Incomplete => "Blockchain response error"@,
            HoldingsErrorView::Rejected { message } => message,
            HoldingsErrorView::Unexpected => "Unexpected status in blockchain response"@,
            HoldingsErrorView::StoreFailure => "MongoDB query failed"@,
        }
    }
}

impl Clone for HoldingsError {
    fn clone(&self) -> (copy: Self)
        ensures
            copy@ == self@,
    {
        match self {
            HoldingsError::Unreachable { detail } => HoldingsError::Unreachable {
                detail: detail.clone(),
            },
            HoldingsError::Unreadable { detail } => HoldingsError::Unreadable {
                detail: detail.clone(),
            },
            HoldingsError::Incomplete => HoldingsError::Incomplete,
            HoldingsError::Rejected { message } => HoldingsError::Rejected {
                message: message.clone(),
            },
            HoldingsError::Unexpected => HoldingsError::Unexpected,
            HoldingsError::StoreFailure => HoldingsError::StoreFailure,
        }
    }
}

impl HoldingsError {
    pub fn kind(&self) -> (kind: ErrorKind)
        ensures
            kind == self@.kind_of(),
    {
        match self {
            HoldingsError::Rejected { .. } => ErrorKind::InvalidInput,
            HoldingsError::StoreFailure => ErrorKind::StoreFailure,
            _ => ErrorKind::UpstreamFailure,
        }
    }

    pub fn message(&self) -> (text: String)
        ensures
            text@ == self@.text(),
    {
        match self {
            HoldingsError::Unreachable { detail } => String::from_str(
                "Blockchain API submission failed: ",
            ).concat(detail.as_str()),
            HoldingsError::Unreadable { detail } => String::from_str(
                "Failed to parse blockchain response: ",
            ).concat(detail.as_str()),
            HoldingsError::Incomplete => String::from_str("Blockchain response error"),
            HoldingsError::Rejected { message } => message.clone(),
            HoldingsError::Unexpected => String::from_str(
                "Unexpected status in blockchain response",
            ),
            HoldingsError::StoreFailure => String::from_str("MongoDB query failed"),
        }
    }
}

/// What an answer of the ledger comes to: the items to read, or the
/// reason why there are none.
pub open spec fn holdings_judged(answer: HoldingsAnswer) -> Result<Seq<Seq<char>>, HoldingsErrorView> {
    match answer {
        HoldingsAnswer::Unreachable { detail } => Err(
            HoldingsErrorView::Unreachable { detail: detail@ },
        ),
        HoldingsAnswer::Unreadable { detail } => Err(
            HoldingsErrorView::Unreadable { detail: detail@ },
        ),
        HoldingsAnswer::Reply { status, item_ids, message } => match holdings_of(
            status@,
            item_ids.deep_view(),
            message.deep_view(),
        ) {
            HoldingsVerdictView::Listed { item_ids } => Ok(item_ids),
            HoldingsVerdictView::Incomplete => Err(HoldingsErrorView::Incomplete),
            HoldingsVerdictView::Rejected { message } => Err(
                HoldingsErrorView::Rejected { message },
            ),
            HoldingsVerdictView::Unexpected => Err(HoldingsErrorView::Unexpected),
        },
    }
}

/// Says what an answer of the ledger comes to.
pub fn judge_holdings(answer: HoldingsAnswer) -> (result: Result<Vec<String>, HoldingsError>)
    ensures
        match (result, holdings_judged(answer)) {
            (Ok(item_ids), Ok(expected)) => item_ids.deep_view() == expected,
            (Err(why), Err(expected)) => why@ == expected,
            _ => false,
        },
{
    match answer {
        HoldingsAnswer::Unreachable { detail } => Err(HoldingsError::Unreachable { detail }),
        HoldingsAnswer::Unreadable { detail } => Err(HoldingsError::Unreadable { detail }),
        HoldingsAnswer::Reply { status, item_ids, message } => match classify_holdings(
            status.as_str(),
            item_ids,
            message,
        ) {
            HoldingsVerdict::Listed { item_ids } => Ok(item_ids),
            HoldingsVerdict::Incomplete => Err(HoldingsError::Incomplete),
            HoldingsVerdict::Rejected { message } => Err(HoldingsError::Rejected { message }),
            HoldingsVerdict::Unexpected => Err(HoldingsError::Unexpected),
        },
    }
}

/// How far the request has come.
#[derive(Clone, Copy, Debug, PartialEq, Eq)]
pub enum HoldingsPhase {
    /// The ledger is being asked.
    AskLedger,
    /// The detail records are being read.
    Items,
    /// Nothing is left to do.
    Done,
}

/// What came of the call that the flow asked for.
#[derive(Debug, PartialEq, Eq)]
pub enum HoldingsEvent {
    Ledger { answer: HoldingsAnswer },
    Items { event: BatchEvent },
}

pub ghost enum HoldingsEventView {
    Ledger { judged: Result<Seq<Seq<char>>, HoldingsErrorView> },
    Items { event: BatchEventView },
}

impl View for HoldingsEvent {
    type V = HoldingsEventView;

    open spec fn view(&self) -> HoldingsEventView {
        match self {
            HoldingsEvent::Ledger { answer } => HoldingsEventView::Ledger {
                judged: holdings_judged(*answer),
            },
            HoldingsEvent::Items { event } => HoldingsEventView::Items { event: event@ },
        }
    }
}

/// The call that the service has to make next.
#[derive(Debug, PartialEq, Eq)]
pub enum HoldingsAction {
    /// Ask the ledger for the items of the user.
    RequestHoldings { user_id: String },
    /// Make this call for the detail records.
    Items { action: BatchAction },
    /// Answer the request.
    Finish { outcome: Result<Vec<Item>, HoldingsError> },
}

pub ghost enum HoldingsActionView {
    RequestHoldings { user_id: Seq<char> },
    Items { action: BatchActionView },
    Finish { outcome: Result<Seq<ItemView>, HoldingsErrorView> },
}

impl View for HoldingsAction {
    type V = HoldingsActionView;

    open spec fn view(&self) -> HoldingsActionView {
        match self {
            HoldingsAction::RequestHoldings { user_id } => HoldingsActionView::RequestHoldings {
                user_id: user_id@,
            },
            HoldingsAction::Items { action } => HoldingsActionView::Items { action: action@ },
            HoldingsAction::Finish { outcome } => HoldingsActionView::Finish {
                outcome: match outcome {
                    Ok(items) => Ok(items.deep_view()),
                    Err(why) => Err(why@),
                },
            },
        }
    }
}

/// One request for the items of a user, on its way.
#[derive(Debug, PartialEq, Eq)]
pub struct HoldingsFlow {
    pub user_id: String,
    pub phase: HoldingsPhase,
    /// The read of the detail records.
    pub items: ItemsRead,
    /// Why the items cannot be given, if so.
    pub failure: Option<HoldingsError>,
}

pub ghost struct HoldingsFlowView {
    pub user_id: Seq<char>,
    pub phase: HoldingsPhase,
    pub items: ItemsReadView,
    pub failure: Option<HoldingsErrorView>,
}

impl View for HoldingsFlow {
    type V = HoldingsFlowView;

    open spec fn view(&self) -> HoldingsFlowView {
        HoldingsFlowView {
            user_id: self.user_id@,
            phase: self.phase,
            items: self.items@,
            failure: self.failure.deep_view(),
        }
    }
}

impl HoldingsFlowView {
    /// While the records are being read, their read has a call to make.
    pub open spec fn wf(self) -> bool {
        self.phase is Items ==> !self.items.settled()
    }

    /// The request for the items of `user_id` at its start.
    pub open spec fn start(user_id: Seq<char>) -> HoldingsFlowView {
        HoldingsFlowView {
            user_id,
            phase: HoldingsPhase::AskLedger,
            items: ItemsReadView::start(Seq::empty()),
            failure: None,
        }
    }

    /// The items, or the reason why there are none.
    pub open spec fn outcome(self) -> Result<Seq<ItemView>, HoldingsErrorView> {
        match self.failure {
            Some(why) => Err(why),
            None => Ok(self.items.hits + self.items.fresh),
        }
    }

    /// The call that is due.
    pub open spec fn pending(self) -> HoldingsActionView {
        match self.phase {
            HoldingsPhase::AskLedger => HoldingsActionView::RequestHoldings {
                user_id: self.user_id,
            },
            HoldingsPhase::Items => HoldingsActionView::Items { action: self.items.pending() },
            HoldingsPhase::Done => HoldingsActionView::Finish { outcome: self.outcome() },
        }
    }

    /// The flow after `event`. An event that does not answer the pending
    /// call leaves the flow as it is.
    pub open spec fn after(self, event: HoldingsEventView) -> HoldingsFlowView {
        match (self.phase, event) {
            (HoldingsPhase::AskLedger, HoldingsEventView::Ledger { judged }) => match judged {
                Ok(item_ids) => {
                    let items = ItemsReadView::start(item_ids);
                    HoldingsFlowView {
                        phase: if items.settled() {
                            HoldingsPhase::Done
                        } else {
                            HoldingsPhase::Items
                        },
                        items,
                        ..self
                    }
                },
                Err(why) => HoldingsFlowView {
                    phase: HoldingsPhase::Done,
                    failure: Some(why),
                    ..self
                },
            },
            (HoldingsPhase::Items, HoldingsEventView::Items { event }) => {
                let items = self.items.after(event);
                if !items.settled() {
                    HoldingsFlowView { items, ..self }
                } else if items.phase is Failed {
                    HoldingsFlowView {
                        phase: HoldingsPhase::Done,
                        items,
                        failure: Some(HoldingsErrorView::StoreFailure),
                        ..self
                    }
                } else {
                    HoldingsFlowView { phase: HoldingsPhase::Done, items, ..self }
                }
            },
            _ => self,
        }
    }
}

impl HoldingsFlow {
    /// Takes up the request for the items of `user_id`.
    pub fn open(user_id: &str) -> (flow: HoldingsFlow)
        ensures
            flow@ == HoldingsFlowView::start(user_id@),
            flow@.wf(),
    {
        let none: Vec<String> = Vec::new();
        assert(none.deep_view() =~= Seq::<Seq<char>>::empty());
        HoldingsFlow {
            user_id: String::from_str(user_id),
            phase: HoldingsPhase::AskLedger,
            items: ItemsRead::open(none),
            failure: None,
        }
    }

    /// The items, or the reason why there are none.
    pub fn outcome(&self) -> (result: Result<Vec<Item>, HoldingsError>)
        ensures
            match (result, self@.outcome()) {
                (Ok(items), Ok(expected)) => items.deep_view() == expected,
                (Err(why), Err(expected)) => why@ == expected,
                _ => false,
            },
    {
        match &self.failure {
            Some(why) => Err(why.clone()),
            None => Ok(joined_items(&self.items.hits, &self.items.fresh)),
        }
    }

    /// The call that the service has to make next.
    pub fn pending(&self) -> (action: HoldingsAction)
        ensures
            action@ == self@.pending(),
    {
        match self.phase {
            HoldingsPhase::AskLedger => HoldingsAction::RequestHoldings {
                user_id: self.user_id.clone(),
            },
            HoldingsPhase::Items => HoldingsAction::Items { action: self.items.pending() },
            HoldingsPhase::Done => HoldingsAction::Finish { outcome: self.outcome() },
        }
    }

    /// Takes in what came of the pending call.
    pub fn advance(self, event: HoldingsEvent) -> (next: HoldingsFlow)
        ensures
            next@ == self@.after(event@),
            self@.wf() ==> next@.wf(),
    {
        let mut flow = self;
        match (flow.phase, event) {
            (HoldingsPhase::AskLedger, HoldingsEvent::Ledger { answer }) => {
                match judge_holdings(answer) {
                    Ok(item_ids) => {
                        let items = ItemsRead::open(item_ids);
                        flow.phase = if items.is_settled() {
                            HoldingsPhase::Done
                        } else {
                            HoldingsPhase::Items
                        };
                        flow.items = items;
                    },
                    Err(why) => {
                        flow.phase = HoldingsPhase::Done;
                        flow.failure = Some(why);
                    },
                }
                flow
            },
            (HoldingsPhase::Items, HoldingsEvent::Items { event }) => {
                let items = flow.items.advance(event);
                if !items.is_settled() {
                } else if items.is_failed() {
                    flow.phase = HoldingsPhase::Done;
                    flow.failure = Some(HoldingsError::StoreFailure);
                } else {
                    flow.phase = HoldingsPhase::Done;
                }
                flow.items = items;
                flow
            },
            _ => flow,
        }
    }

    /// Whether nothing is left to do.
    pub fn is_done(&self) -> (done: bool)
        ensures
            done == (self@.phase is Done),
    {
        match self.phase {
            HoldingsPhase::Done => true,
            _ => false,
        }
    }
}

} // verus!
