//! Transferring a sold item to its buyer.
//!
//! The item has to wait on the list of the buyer. The ledger is then asked;
//! once it has taken the request, the records of the item are taken off the
//! list of the buyer, the item is marked as sold in the store, and the
//! references to it are cleaned out of the cache. Trouble with the list or
//! with the clean-up does not stop the transfer; a store that cannot mark
//! the item does.

use vstd::prelude::*;
use crate::catalog::ItemStatus;
use crate::errors::ErrorKind;
use crate::keys::{transferring_items_key, transferring_key};
use crate::lifecycle::{refusal_of, LifecycleError, LifecycleErrorView};
use crate::text::copy_text;
use crate::retire::{
    RetireAction, RetireActionView, RetireEvent, RetireEventView, RetireFlow, RetireFlowView,
};
use crate::transfers::{
    about, check_transferable, entries_about, transferable, TransferRecord, TransferRecordView,
    TransferRefusal,
};
use crate::upstream::{judge, judged, LedgerAnswer, LedgerVerdict, LedgerVerdictView};

verus! {

/// Why an item was not transferred.
#[derive(Debug, PartialEq, Eq)]
pub enum TransferError {
    /// The item does not wait for the buyer.
    Refused { refusal: TransferRefusal },
    /// The list of the buyer could not be read.
    AvailabilityUnknown,
    /// The ledger or the store let the request down.
    Failed { why: LifecycleError },
}

pub ghost enum TransferErrorView {
    Refused { refusal: TransferRefusal },
    AvailabilityUnknown,
    Failed { why: LifecycleErrorView },
}

impl View for TransferError {
    type V = TransferErrorView;

    open spec fn view(&self) -> TransferErrorView {
        match self {
            TransferError::Refused { refusal } => TransferErrorView::Refused { refusal: *refusal },
            TransferError::AvailabilityUnknown => TransferErrorView::AvailabilityUnknown,
            TransferError::Failed { why } => TransferErrorView::Failed { why: why@ },
        }
    }
}

impl DeepView for TransferError {
    type V = TransferErrorView;

    open spec fn deep_view(&self) -> TransferErrorView {
        self@
    }
}

impl TransferErrorView {
    pub open spec fn kind_of(self) -> ErrorKind {
        match self {
            TransferErrorView::Refused { refusal } => refusal.kind_of(),
            TransferErrorView::AvailabilityUnknown => ErrorKind::CacheFailure,
            TransferErrorView::Failed { why } => why.kind_of(),
        }
    }
}

impl Clone for TransferError {
    fn clone(&self) -> (copy: Self)
        ensures
            copy@ == self@,
    {
        match self {
            TransferError::Refused { refusal } => TransferError::Refused { refusal: *refusal },
            TransferError::AvailabilityUnknown => TransferError::AvailabilityUnknown,
            TransferError::Failed { why } => TransferError::Failed { why: why.clone() },
        }
    }
}

impl TransferError {
    pub fn kind(&self) -> (kind: ErrorKind)
        ensures
            kind == self@.kind_of(),
    {
        match self {
            TransferError::Refused { refusal } => refusal.kind(),
            TransferError::AvailabilityUnknown => ErrorKind::CacheFailure,
            TransferError::Failed { why } => why.kind(),
        }
    }
}

/// How far a transfer has come.
#[derive(Clone, Copy, Debug, PartialEq, Eq)]
pub enum HandoverPhase {
    /// The list of the buyer is being read.
    CheckList,
    /// The ledger is being asked.
    AskLedger,
    /// The raw list of the buyer is being read.
    ReadList,
    /// The records of the item are being taken off the list.
    TrimList,
    /// The item is being marked as sold.
    MarkSold,
    /// The cache is being cleaned.
    CleanUp,
    /// Nothing is left to do.
    Done,
}

/// What came of the call that the flow asked for.
#[derive(Debug, PartialEq, Eq)]
pub enum HandoverEvent {
    Waiting { records: Vec<TransferRecord> },
    WaitingUnread,
    Ledger { answer: LedgerAnswer },
    RawList { entries: Vec<String> },
    RawListUnread,
    ListTrimmed,
    ListTrimFailed,
    ItemMarked,
    ItemMarkFailed,
    Cache { event: RetireEvent },
}

pub ghost enum HandoverEventView {
    Waiting { records: Seq<TransferRecordView> },
    WaitingUnread,
    Ledger { verdict: LedgerVerdictView },
    RawList { entries: Seq<Seq<char>> },
    RawListUnread,
    ListTrimmed,
    ListTrimFailed,
    ItemMarked,
    ItemMarkFailed,
    Cache { event: RetireEventView },
}

impl View for HandoverEvent {
    type V = HandoverEventView;

    open spec fn view(&self) -> HandoverEventView {
        match self {
            HandoverEvent::Waiting { records } => HandoverEventView::Waiting {
                records: records.deep_view(),
            },
            HandoverEvent::WaitingUnread => HandoverEventView::WaitingUnread,
            HandoverEvent::Ledger { answer } => HandoverEventView::Ledger {
                verdict: judged(*answer),
            },
            HandoverEvent::RawList { entries } => HandoverEventView::RawList {
                entries: entries.deep_view(),
            },
            HandoverEvent::RawListUnread => HandoverEventView::RawListUnread,
            HandoverEvent::ListTrimmed => HandoverEventView::ListTrimmed,
            HandoverEvent::ListTrimFailed => HandoverEventView::ListTrimFailed,
            HandoverEvent::ItemMarked => HandoverEventView::ItemMarked,
            HandoverEvent::ItemMarkFailed => HandoverEventView::ItemMarkFailed,
            HandoverEvent::Cache { event } => HandoverEventView::Cache { event: event@ },
        }
    }
}

/// The call that the service has to make next.
#[derive(Debug, PartialEq, Eq)]
pub enum HandoverAction {
    /// Read the records that wait for the buyer.
    ReadWaiting { key: String },
    /// Ask the ledger to transfer the item to the buyer.
    RequestTransfer { item_id: String, buyer: String },
    /// Read the list of the buyer as it is stored.
    ReadRawList { key: String },
    /// Take one occurrence of each of these entries off the list.
    TrimList { key: String, entries: Vec<String> },
    /// Set the status of the item in the store.
    MarkItem { item_id: String, status: ItemStatus },
    /// Make this call on the cache.
    Cache { action: RetireAction },
    /// Answer the request: with the operation that the ledger started, or
    /// with the reason why the item was not transferred.
    Finish { outcome: Result<Option<String>, TransferError> },
}

pub ghost enum HandoverActionView {
    ReadWaiting { key: Seq<char> },
    RequestTransfer { item_id: Seq<char>, buyer: Seq<char> },
    ReadRawList { key: Seq<char> },
    TrimList { key: Seq<char>, entries: Seq<Seq<char>> },
    MarkItem { item_id: Seq<char>, status: ItemStatus },
    Cache { action: RetireActionView },
    Finish { outcome: Result<Option<Seq<char>>, TransferErrorView> },
}

impl View for HandoverAction {
    type V = HandoverActionView;

    open spec fn view(&self) -> HandoverActionView {
        match self {
            HandoverAction::ReadWaiting { key } => HandoverActionView::ReadWaiting { key: key@ },
            HandoverAction::RequestTransfer { item_id, buyer } => HandoverActionView::RequestTransfer {
                item_id: item_id@,
                buyer: buyer@,
            },
            HandoverAction::ReadRawList { key } => HandoverActionView::ReadRawList { key: key@ },
            HandoverAction::TrimList { key, entries } => HandoverActionView::TrimList {
                key: key@,
                entries: entries.deep_view(),
            },
            HandoverAction::MarkItem { item_id, status } => HandoverActionView::MarkItem {
                item_id: item_id@,
                status: *status,
            },
            HandoverAction::Cache { action } => HandoverActionView::Cache { action: action@ },
            HandoverAction::Finish { outcome } => HandoverActionView::Finish {
                outcome: match outcome {
                    Ok(operation_id) => Ok(operation_id.deep_view()),
                    Err(why) => Err(why@),
                },
            },
        }
    }
}

/// One transfer, on its way.
#[derive(Debug, PartialEq, Eq)]
pub struct HandoverFlow {
    pub item_id: String,
    pub buyer: String,
    pub phase: HandoverPhase,
    /// The operation that the ledger started, once it took the request.
    pub operation_id: Option<String>,
    /// The entries that are being taken off the list of the buyer.
    pub trimmed: Vec<String>,
    /// The clean-up of the cache.
    pub cleanup: RetireFlow,
    /// Why the item was not transferred, if so.
    pub failure: Option<TransferError>,
}

pub ghost struct HandoverFlowView {
    pub item_id: Seq<char>,
    pub buyer: Seq<char>,
    pub phase: HandoverPhase,
    pub operation_id: Option<Seq<char>>,
    pub trimmed: Seq<Seq<char>>,
    pub cleanup: RetireFlowView,
    pub failure: Option<TransferErrorView>,
}

impl View for HandoverFlow {
    type V = HandoverFlowView;

    open spec fn view(&self) -> HandoverFlowView {
        HandoverFlowView {
            item_id: self.item_id@,
            buyer: self.buyer@,
            phase: self.phase,
            operation_id: self.operation_id.deep_view(),
            trimmed: self.trimmed.deep_view(),
            cleanup: self.cleanup@,
            failure: self.failure.deep_view(),
        }
    }
}

impl HandoverFlowView {
    /// Until the cache has been cleaned, the clean-up has a call to make.
    pub open spec fn wf(self) -> bool {
        self.cleanup.wf() && (!(self.phase is Done) ==> !self.cleanup.finished())
    }

    /// The transfer of `item_id` to `buyer` at its start.
    pub open spec fn start(item_id: Seq<char>, buyer: Seq<char>) -> HandoverFlowView {
        HandoverFlowView {
            item_id,
            buyer,
            phase: HandoverPhase::CheckList,
            operation_id: None,
            trimmed: Seq::empty(),
            cleanup: RetireFlowView::start(item_id),
            failure: None,
        }
    }

    /// What the request comes to: the operation that the ledger started, or
    /// the reason why the item was not transferred.
    pub open spec fn outcome(self) -> Result<Option<Seq<char>>, TransferErrorView> {
        match self.failure {
            Some(why) => Err(why),
            None => Ok(self.operation_id),
        }
    }

    /// The flow, ended for this reason.
    pub open spec fn failed(self, why: TransferErrorView) -> HandoverFlowView {
        HandoverFlowView { phase: HandoverPhase::Done, failure: Some(why), ..self }
    }

    /// The call that is due.
    pub open spec fn pending(self) -> HandoverActionView {
        match self.phase {
            HandoverPhase::CheckList => HandoverActionView::ReadWaiting {
                key: transferring_key(self.buyer),
            },
            HandoverPhase::AskLedger => HandoverActionView::RequestTransfer {
                item_id: self.item_id,
                buyer: self.buyer,
            },
            HandoverPhase::ReadList => HandoverActionView::ReadRawList {
                key: transferring_key(self.buyer),
            },
            HandoverPhase::TrimList => HandoverActionView::TrimList {
                key: transferring_key(self.buyer),
                entries: self.trimmed,
            },
            HandoverPhase::MarkSold => HandoverActionView::MarkItem {
                item_id: self.item_id,
                status: ItemStatus::SOLD,
            },
            HandoverPhase::CleanUp => HandoverActionView::Cache { action: self.cleanup.pending() },
            HandoverPhase::Done => HandoverActionView::Finish { outcome: self.outcome() },
        }
    }

    /// The flow after `event`. An event that does not answer the pending
    /// call leaves the flow as it is.
    pub open spec fn after(self, event: HandoverEventView) -> HandoverFlowView {
        match (self.phase, event) {
            (HandoverPhase::CheckList, HandoverEventView::Waiting { records }) => match transferable(
                records,
                self.item_id,
            ) {
                Ok(_) => HandoverFlowView { phase: HandoverPhase::AskLedger, ..self },
                Err(refusal) => self.failed(TransferErrorView::Refused { refusal }),
            },
            (HandoverPhase::CheckList, HandoverEventView::WaitingUnread) => self.failed(
                TransferErrorView::AvailabilityUnknown,
            ),
            (HandoverPhase::AskLedger, HandoverEventView::Ledger { verdict }) => match verdict {
                LedgerVerdictView::Pending { operation_id } => HandoverFlowView {
                    phase: HandoverPhase::ReadList,
                    operation_id,
                    ..self
                },
                _ => self.failed(TransferErrorView::Failed { why: refusal_of(verdict)->0 }),
            },
            (HandoverPhase::ReadList, HandoverEventView::RawList { entries }) => {
                let trimmed = entries.filter(about(self.item_id));
                HandoverFlowView {
                    phase: if trimmed.len() > 0 {
                        HandoverPhase::TrimList
                    } else {
                        HandoverPhase::MarkSold
                    },
                    trimmed,
                    ..self
                }
            },
            (HandoverPhase::ReadList, HandoverEventView::RawListUnread) => HandoverFlowView {
                phase: HandoverPhase::MarkSold,
                ..self
            },
            (HandoverPhase::TrimList, HandoverEventView::ListTrimmed) => HandoverFlowView {
                phase: HandoverPhase::MarkSold,
                ..self
            },
            (HandoverPhase::TrimList, HandoverEventView::ListTrimFailed) => HandoverFlowView {
                phase: HandoverPhase::MarkSold,
                ..self
            },
            (HandoverPhase::MarkSold, HandoverEventView::ItemMarked) => HandoverFlowView {
                phase: HandoverPhase::CleanUp,
                ..self
            },
            (HandoverPhase::MarkSold, HandoverEventView::ItemMarkFailed) => self.failed(
                TransferErrorView::Failed { why: LifecycleErrorView::StoreFailure },
            ),
            (HandoverPhase::CleanUp, HandoverEventView::Cache { event }) => {
                let cleanup = self.cleanup.after(event);
                HandoverFlowView {
                    phase: if cleanup.finished() {
                        HandoverPhase::Done
                    } else {
                        HandoverPhase::CleanUp
                    },
                    cleanup,
                    ..self
                }
            },
            _ => self,
        }
    }
}

/// Each step of a transfer follows from the one before it alone: the
/// ledger is asked only for an item that waits for the buyer, the list of
/// the buyer is touched only after the ledger answered pending, the item
/// is marked only after that, the cache is cleaned only after the store
/// marked the item, and the transfer ends well only after the clean-up was
/// gone through. A transfer that has ended stays as it is.
pub proof fn lemma_order_of_a_transfer(flow: HandoverFlowView, event: HandoverEventView)
    ensures
        flow.after(event).phase is AskLedger && !(flow.phase is AskLedger) ==> flow.phase
            is CheckList && (match event {
            HandoverEventView::Waiting { records } => transferable(records, flow.item_id) is Ok,
            _ => false,
        }),
        flow.after(event).phase is ReadList && !(flow.phase is ReadList) ==> flow.phase
            is AskLedger && (match event {
            HandoverEventView::Ledger { verdict } => verdict is Pending,
            _ => false,
        }),
        flow.after(event).phase is TrimList && !(flow.phase is TrimList) ==> flow.phase
            is ReadList,
        flow.after(event).phase is MarkSold && !(flow.phase is MarkSold) ==> flow.phase
            is ReadList || flow.phase is TrimList,
        flow.after(event).phase is CleanUp && !(flow.phase is CleanUp) ==> flow.phase
            is MarkSold && event is ItemMarked,
        flow.after(event).phase is Done && flow.phase is CleanUp ==> flow.after(
            event,
        ).cleanup.finished() && flow.after(event).failure == flow.failure,
        flow.after(event).phase is Done && !(flow.phase is Done) && !(flow.phase is CleanUp)
            ==> flow.after(event).outcome() is Err,
        flow.phase is Done ==> flow.after(event) == flow,
{
}

impl HandoverFlow {
    /// Takes up the transfer of `item_id` to `buyer`.
    pub fn open(item_id: &str, buyer: &str) -> (flow: HandoverFlow)
        ensures
            flow@ == HandoverFlowView::start(item_id@, buyer@),
            flow@.wf(),
    {
        let flow = HandoverFlow {
            item_id: String::from_str(item_id),
            buyer: String::from_str(buyer),
            phase: HandoverPhase::CheckList,
            operation_id: None,
            trimmed: Vec::new(),
            cleanup: RetireFlow::open(item_id),
            failure: None,
        };
        assert(flow.trimmed.deep_view() =~= Seq::<Seq<char>>::empty());
        flow
    }

    /// What the request comes to.
    pub fn outcome(&self) -> (result: Result<Option<String>, TransferError>)
        ensures
            match (result, self@.outcome()) {
                (Ok(operation_id), Ok(expected)) => operation_id.deep_view() == expected,
                (Err(why), Err(expected)) => why@ == expected,
                _ => false,
            },
    {
        match &self.failure {
            Some(why) => Err(why.clone()),
            None => Ok(copy_text(&self.operation_id)),
        }
    }

    /// The call that the service has to make next.
    pub fn pending(&self) -> (action: HandoverAction)
        requires
            self@.wf(),
        ensures
            action@ == self@.pending(),
    {
        match self.phase {
            HandoverPhase::CheckList => HandoverAction::ReadWaiting {
                key: transferring_items_key(self.buyer.as_str()),
            },
            HandoverPhase::AskLedger => HandoverAction::RequestTransfer {
                item_id: self.item_id.clone(),
                buyer: self.buyer.clone(),
            },
            HandoverPhase::ReadList => HandoverAction::ReadRawList {
                key: transferring_items_key(self.buyer.as_str()),
            },
            HandoverPhase::TrimList => HandoverAction::TrimList {
                key: transferring_items_key(self.buyer.as_str()),
                entries: crate::text::copy_texts(&self.trimmed),
            },
            HandoverPhase::MarkSold => HandoverAction::MarkItem {
                item_id: self.item_id.clone(),
                status: ItemStatus::SOLD,
            },
            HandoverPhase::CleanUp => HandoverAction::Cache { action: self.cleanup.pending() },
            HandoverPhase::Done => HandoverAction::Finish { outcome: self.outcome() },
        }
    }

    fn fail(self, why: TransferError) -> (next: HandoverFlow)
        ensures
            next@ == self@.failed(why@),
    {
        let mut flow = self;
        flow.phase = HandoverPhase::Done;
        flow.failure = Some(why);
        flow
    }

    /// Takes in what came of the pending call.
    pub fn advance(self, event: HandoverEvent) -> (next: HandoverFlow)
        requires
            self@.wf(),
        ensures
            next@ == self@.after(event@),
            next@.wf(),
    {
        let mut flow = self;
        match (flow.phase, event) {
            (HandoverPhase::CheckList, HandoverEvent::Waiting { records }) => {
                match check_transferable(&records, flow.item_id.as_str()) {
                    Ok(_) => {
                        flow.phase = HandoverPhase::AskLedger;
                        flow
                    },
                    Err(refusal) => flow.fail(TransferError::Refused { refusal }),
                }
            },
            (HandoverPhase::CheckList, HandoverEvent::WaitingUnread) => flow.fail(
                TransferError::AvailabilityUnknown,
            ),
            (HandoverPhase::AskLedger, HandoverEvent::Ledger { answer }) => {
                match judge(answer) {
                    LedgerVerdict::Pending { operation_id } => {
                        flow.phase = HandoverPhase::ReadList;
                        flow.operation_id = operation_id;
                        flow
                    },
                    LedgerVerdict::Rejected { message } => flow.fail(
                        TransferError::Failed { why: LifecycleError::Rejected { message } },
                    ),
                    LedgerVerdict::Unexpected => flow.fail(
                        TransferError::Failed { why: LifecycleError::UnexpectedReply },
                    ),
                    LedgerVerdict::Unreachable => flow.fail(
                        TransferError::Failed { why: LifecycleError::LedgerUnreachable },
                    ),
                    LedgerVerdict::Unreadable => flow.fail(
                        TransferError::Failed { why: LifecycleError::LedgerUnreadable },
                    ),
                }
            },
            (HandoverPhase::ReadList, HandoverEvent::RawList { entries }) => {
                let trimmed = entries_about(&entries, flow.item_id.as_str());
                flow.phase = if trimmed.len() > 0 {
                    HandoverPhase::TrimList
                } else {
                    HandoverPhase::MarkSold
                };
                flow.trimmed = trimmed;
                flow
            },
            (HandoverPhase::ReadList, HandoverEvent::RawListUnread) => {
                flow.phase = HandoverPhase::MarkSold;
                flow
            },
            (HandoverPhase::TrimList, HandoverEvent::ListTrimmed) => {
                flow.phase = HandoverPhase::MarkSold;
                flow
            },
            (HandoverPhase::TrimList, HandoverEvent::ListTrimFailed) => {
                flow.phase = HandoverPhase::MarkSold;
                flow
            },
            (HandoverPhase::MarkSold, HandoverEvent::ItemMarked) => {
                flow.phase = HandoverPhase::CleanUp;
                flow
            },
            (HandoverPhase::MarkSold, HandoverEvent::ItemMarkFailed) => flow.fail(
                TransferError::Failed { why: LifecycleError::StoreFailure },
            ),
            (HandoverPhase::CleanUp, HandoverEvent::Cache { event }) => {
                let cleanup = flow.cleanup.advance(event);
                flow.phase = if cleanup.is_finished() {
                    HandoverPhase::Done
                } else {
                    HandoverPhase::CleanUp
                };
                flow.cleanup = cleanup;
                flow
            },
            _ => flow,
        }
    }

    /// Whether the flow is in a state that `open` and `advance` lead to.
    pub fn is_well_formed(&self) -> (yes: bool)
        ensures
            yes == self@.wf(),
    {
        self.cleanup.is_well_formed() && (self.is_done() || !self.cleanup.is_finished())
    }

    /// Whether nothing is left to do.
    pub fn is_done(&self) -> (done: bool)
        ensures
            done == (self@.phase is Done),
    {
        match self.phase {
            HandoverPhase::Done => true,
            _ => false,
        }
    }
}

} // verus!
