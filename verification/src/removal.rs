//! Deleting an item.
//!
//! The ledger is asked first. Once it has taken the request, the references
//! to the item are cleaned out of the cache, and the item is deleted from
//! the store. A clean-up step that fails does not stop the deletion.

use vstd::prelude::*;
use crate::lifecycle::{refusal_of, LifecycleError, LifecycleErrorView};
use crate::text::copy_text;
use crate::retire::{
    RetireAction, RetireActionView, RetireEvent, RetireEventView, RetireFlow, RetireFlowView,
};
use crate::upstream::{judge, judged, LedgerAnswer, LedgerVerdict, LedgerVerdictView};

verus! {

/// How far a deletion has come.
#[derive(Clone, Copy, Debug, PartialEq, Eq)]
pub enum RemovalPhase {
    /// The ledger is being asked.
    AskLedger,
    /// The cache is being cleaned.
    CleanUp,
    /// The item is being deleted from the store.
    DeleteItem,
    /// Nothing is left to do.
    Done,
}

/// What came of the call that the flow asked for.
#[derive(Debug, PartialEq, Eq)]
pub enum RemovalEvent {
    Ledger { answer: LedgerAnswer },
    Cache { event: RetireEvent },
    ItemDeleted,
    ItemDeleteFailed,
}

pub ghost enum RemovalEventView {
    Ledger { verdict: LedgerVerdictView },
    Cache { event: RetireEventView },
    ItemDeleted,
    ItemDeleteFailed,
}

impl View for RemovalEvent {
    type V = RemovalEventView;

    open spec fn view(&self) -> RemovalEventView {
        match self {
            RemovalEvent::Ledger { answer } => RemovalEventView::Ledger { verdict: judged(*answer) },
            RemovalEvent::Cache { event } => RemovalEventView::Cache { event: event@ },
            RemovalEvent::ItemDeleted => RemovalEventView::ItemDeleted,
            RemovalEvent::ItemDeleteFailed => RemovalEventView::ItemDeleteFailed,
        }
    }
}

/// The call that the service has to make next.
#[derive(Debug, PartialEq, Eq)]
pub enum RemovalAction {
    /// Ask the ledger to delete the item for its seller.
    RequestDeletion { item_id: String, seller: String },
    /// Make this call on the cache.
    Cache { action: RetireAction },
    /// Delete the item from the store.
    DeleteItem { item_id: String },
    /// Answer the request: with the operation that the ledger started, or
    /// with the reason why nothing was deleted.
    Finish { outcome: Result<Option<String>, LifecycleError> },
}

pub ghost enum RemovalActionView {
    RequestDeletion { item_id: Seq<char>, seller: Seq<char> },
    Cache { action: RetireActionView },
    DeleteItem { item_id: Seq<char> },
    Finish { outcome: Result<Option<Seq<char>>, LifecycleErrorView> },
}

impl View for RemovalAction {
    type V = RemovalActionView;

    open spec fn view(&self) -> RemovalActionView {
        match self {
            RemovalAction::RequestDeletion { item_id, seller } => RemovalActionView::RequestDeletion {
                item_id: item_id@,
                seller: seller@,
            },
            RemovalAction::Cache { action } => RemovalActionView::Cache { action: action@ },
            RemovalAction::DeleteItem { item_id } => RemovalActionView::DeleteItem {
                item_id: item_id@,
            },
            RemovalAction::Finish { outcome } => RemovalActionView::Finish {
                outcome: match outcome {
                    Ok(operation_id) => Ok(operation_id.deep_view()),
                    Err(why) => Err(why@),
                },
            },
        }
    }
}

/// One deletion, on its way.
#[derive(Debug, PartialEq, Eq)]
pub struct RemovalFlow {
    pub item_id: String,
    pub seller: String,
    pub phase: RemovalPhase,
    /// The operation that the ledger started, once it took the request.
    pub operation_id: Option<String>,
    /// The clean-up of the cache.
    pub cleanup: RetireFlow,
    /// Why nothing was deleted, if so.
    pub failure: Option<LifecycleError>,
}

pub ghost struct RemovalFlowView {
    pub item_id: Seq<char>,
    pub seller: Seq<char>,
    pub phase: RemovalPhase,
    pub operation_id: Option<Seq<char>>,
    pub cleanup: RetireFlowView,
    pub failure: Option<LifecycleErrorView>,
}

impl View for RemovalFlow {
    type V = RemovalFlowView;

    open spec fn view(&self) -> RemovalFlowView {
        RemovalFlowView {
            item_id: self.item_id@,
            seller: self.seller@,
            phase: self.phase,
            operation_id: self.operation_id.deep_view(),
            cleanup: self.cleanup@,
            failure: self.failure.deep_view(),
        }
    }
}

impl RemovalFlowView {
    /// Until the cache has been cleaned, the clean-up has a call to make.
    pub open spec fn wf(self) -> bool {
        self.cleanup.wf() && (self.phase is AskLedger || self.phase is CleanUp
            ==> !self.cleanup.finished())
    }

    /// The deletion of `item_id` for `seller` at its start.
    pub open spec fn start(item_id: Seq<char>, seller: Seq<char>) -> RemovalFlowView {
        RemovalFlowView {
            item_id,
            seller,
            phase: RemovalPhase::AskLedger,
            operation_id: None,
            cleanup: RetireFlowView::start(item_id),
            failure: None,
        }
    }

    /// What the request comes to: the operation that the ledger started, or
    /// the reason why nothing was deleted.
    pub open spec fn outcome(self) -> Result<Option<Seq<char>>, LifecycleErrorView> {
        match self.failure {
            Some(why) => Err(why),
            None => Ok(self.operation_id),
        }
    }

    /// The call that is due.
    pub open spec fn pending(self) -> RemovalActionView {
        match self.phase {
            RemovalPhase::AskLedger => RemovalActionView::RequestDeletion {
                item_id: self.item_id,
                seller: self.seller,
            },
            RemovalPhase::CleanUp => RemovalActionView::Cache { action: self.cleanup.pending() },
            RemovalPhase::DeleteItem => RemovalActionView::DeleteItem { item_id: self.item_id },
            RemovalPhase::Done => RemovalActionView::Finish { outcome: self.outcome() },
        }
    }

    /// The flow after `event`. An event that does not answer the pending
    /// call leaves the flow as it is.
    pub open spec fn after(self, event: RemovalEventView) -> RemovalFlowView {
        match (self.phase, event) {
            (RemovalPhase::AskLedger, RemovalEventView::Ledger { verdict }) => match verdict {
                LedgerVerdictView::Pending { operation_id } => RemovalFlowView {
                    phase: RemovalPhase::CleanUp,
                    operation_id,
                    ..self
                },
                _ => RemovalFlowView {
                    phase: RemovalPhase::Done,
                    failure: refusal_of(verdict),
                    ..self
                },
            },
            (RemovalPhase::CleanUp, RemovalEventView::Cache { event }) => {
                let cleanup = self.cleanup.after(event);
                RemovalFlowView {
                    phase: if cleanup.finished() {
                        RemovalPhase::DeleteItem
                    } else {
                        RemovalPhase::CleanUp
                    },
                    cleanup,
                    ..self
                }
            },
            (RemovalPhase::DeleteItem, RemovalEventView::ItemDeleted) => RemovalFlowView {
                phase: RemovalPhase::Done,
                ..self
            },
            (RemovalPhase::DeleteItem, RemovalEventView::ItemDeleteFailed) => RemovalFlowView {
                phase: RemovalPhase::Done,
                failure: Some(LifecycleErrorView::StoreFailure),
                ..self
            },
            _ => self,
        }
    }
}

/// Nothing is touched before the ledger has taken the request, and the item
/// is deleted only after the clean-up was gone through: whatever the
/// events, a deletion comes to the clean-up from a ledger that answered
/// pending alone, to the store from a finished clean-up alone, and to a
/// good end from a store that deleted the item alone. A deletion that has
/// ended stays as it is.
pub proof fn lemma_order_of_a_deletion(flow: RemovalFlowView, event: RemovalEventView)
    ensures
        flow.phase is AskLedger && !(flow.after(event).phase is AskLedger) ==> (match event {
            RemovalEventView::Ledger { verdict } => if verdict is Pending {
                flow.after(event).phase is CleanUp
            } else {
                flow.after(event).phase is Done && flow.after(event).outcome() is Err
            },
            _ => false,
        }),
        flow.after(event).phase is CleanUp ==> flow.phase is AskLedger || flow.phase is CleanUp,
        flow.after(event).phase is DeleteItem ==> flow.phase is DeleteItem || (flow.phase
            is CleanUp && flow.after(event).cleanup.finished()),
        flow.after(event).phase is Done && flow.phase is DeleteItem ==> (event
            is ItemDeleted && flow.after(event).failure == flow.failure) || (event
            is ItemDeleteFailed && flow.after(event).outcome() is Err),
        flow.after(event).phase is Done ==> flow.phase is Done || flow.phase is AskLedger
            || flow.phase is DeleteItem,
        flow.phase is Done ==> flow.after(event) == flow,
{
}

impl RemovalFlow {
    /// Takes up the deletion of `item_id` for `seller`.
    pub fn open(item_id: &str, seller: &str) -> (flow: RemovalFlow)
        ensures
            flow@ == RemovalFlowView::start(item_id@, seller@),
            flow@.wf(),
    {
        RemovalFlow {
            item_id: String::from_str(item_id),
            seller: String::from_str(seller),
            phase: RemovalPhase::AskLedger,
            operation_id: None,
            cleanup: RetireFlow::open(item_id),
            failure: None,
        }
    }

    /// What the request comes to.
    pub fn outcome(&self) -> (result: Result<Option<String>, LifecycleError>)
        ensures
            match (result, self@.outcome()) {
                (Ok(operation_id), Ok(expected)) => operation_id.deep_view() == expected,
                (Err(why), Err(expected)) => why@ == expected,
                _ => false,
            },
    {
        match &self.failure {
            Some(why) => Err(why.clone()),
            None => Ok(copy_text(&self.operation_id)),
        }
    }

    /// The call that the service has to make next.
    pub fn pending(&self) -> (action: RemovalAction)
        requires
            self@.wf(),
        ensures
            action@ == self@.pending(),
    {
        match self.phase {
            RemovalPhase::AskLedger => RemovalAction::RequestDeletion {
                item_id: self.item_id.clone(),
                seller: self.seller.clone(),
            },
            RemovalPhase::CleanUp => RemovalAction::Cache { action: self.cleanup.pending() },
            RemovalPhase::DeleteItem => RemovalAction::DeleteItem { item_id: self.item_id.clone() },
            RemovalPhase::Done => RemovalAction::Finish { outcome: self.outcome() },
        }
    }

    /// Takes in what came of the pending call.
    pub fn advance(self, event: RemovalEvent) -> (next: RemovalFlow)
        requires
            self@.wf(),
        ensures
            next@ == self@.after(event@),
            next@.wf(),
    {
        let mut flow = self;
        match (flow.phase, event) {
            (RemovalPhase::AskLedger, RemovalEvent::Ledger { answer }) => {
                match judge(answer) {
                    LedgerVerdict::Pending { operation_id } => {
                        flow.phase = RemovalPhase::CleanUp;
                        flow.operation_id = operation_id;
                    },
                    LedgerVerdict::Rejected { message } => {
                        flow.phase = RemovalPhase::Done;
                        flow.failure = Some(LifecycleError::Rejected { message });
                    },
                    LedgerVerdict::Unexpected => {
                        flow.phase = RemovalPhase::Done;
                        flow.failure = Some(LifecycleError::UnexpectedReply);
                    },
                    LedgerVerdict::Unreachable => {
                        flow.phase = RemovalPhase::Done;
                        flow.failure = Some(LifecycleError::LedgerUnreachable);
                    },
                    LedgerVerdict::Unreadable => {
                        flow.phase = RemovalPhase::Done;
                        flow.failure = Some(LifecycleError::LedgerUnreadable);
                    },
                }
            },
            (RemovalPhase::CleanUp, RemovalEvent::Cache { event }) => {
                let cleanup = flow.cleanup.advance(event);
                flow.phase = if cleanup.is_finished() {
                    RemovalPhase::DeleteItem
                } else {
                    RemovalPhase::CleanUp
                };
                flow.cleanup = cleanup;
            },
            (RemovalPhase::DeleteItem, RemovalEvent::ItemDeleted) => {
                flow.phase = RemovalPhase::Done;
            },
            (RemovalPhase::DeleteItem, RemovalEvent::ItemDeleteFailed) => {
                flow.phase = RemovalPhase::Done;
                flow.failure = Some(LifecycleError::StoreFailure);
            },
            _ => {},
        }
        flow
    }

    /// Whether the flow is in a state that `open` and `advance` lead to.
    pub fn is_well_formed(&self) -> (yes: bool)
        ensures
            yes == self@.wf(),
    {
        let cleaning = match self.phase {
            RemovalPhase::AskLedger => true,
            RemovalPhase::CleanUp => true,
            _ => false,
        };
        self.cleanup.is_well_formed() && (!cleaning || !self.cleanup.is_finished())
    }

    /// Whether nothing is left to do.
    pub fn is_done(&self) -> (done: bool)
        ensures
            done == (self@.phase is Done),
    {
        match self.phase {
            RemovalPhase::Done => true,
            _ => false,
        }
    }
}

} // verus!
