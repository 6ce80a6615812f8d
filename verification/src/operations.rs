//! Long-running operations on the ledger and the status that callers see.
//!
//! An operation is recorded as pending when the ledger accepts a request.
//! A worker outside this service completes or fails it; here its record is
//! only read. An operation that is not recorded is reported as not found,
//! which is not the same as pending.

use vstd::prelude::*;
use crate::errors::ErrorKind;
use crate::json::{json_text_field, json_text_field_of};

verus! {

/// What an operation does to an item.
#[derive(Clone, Copy, Debug, PartialEq, Eq, Structural)]
pub enum OperationType {
    ADD,
    TRANSFER,
    DELETE,
}

/// How far an operation has come.
#[derive(Clone, Copy, Debug, PartialEq, Eq, Structural)]
pub enum OperationStatus {
    PENDING,
    COMPLETED,
    FAILED,
}

impl OperationType {
    /// The upper-case name under which the type is stored.
    pub open spec fn name(self) -> Seq<char> {
        match self {
            OperationType::ADD => "ADD"@,
            OperationType::TRANSFER => "TRANSFER"@,
            OperationType::DELETE => "DELETE"@,
        }
    }

    pub fn to_string(&self) -> (text: String)
        ensures
            text@ == self.name(),
    {
        match self {
            OperationType::ADD => String::from_str("ADD"),
            OperationType::DELETE => String::from_str("DELETE"),
            OperationType::TRANSFER => String::from_str("TRANSFER"),
        }
    }
}

impl OperationStatus {
    /// The upper-case name under which the status is stored.
    pub open spec fn name(self) -> Seq<char> {
        match self {
            OperationStatus::PENDING => "PENDING"@,
            OperationStatus::COMPLETED => "COMPLETED"@,
            OperationStatus::FAILED => "FAILED"@,
        }
    }

    /// Completed and failed operations stay as they are.
    pub open spec fn terminal(self) -> bool {
        self != OperationStatus::PENDING
    }

    /// The changes of status that a worker may record: a pending operation
    /// is completed or fails, and nothing else ever changes.
    pub open spec fn may_become(self, next: OperationStatus) -> bool {
        self == OperationStatus::PENDING && next.terminal()
    }

    pub fn to_string(&self) -> (text: String)
        ensures
            text@ == self.name(),
    {
        match self {
            OperationStatus::PENDING => String::from_str("PENDING"),
            OperationStatus::COMPLETED => String::from_str("COMPLETED"),
            OperationStatus::FAILED => String::from_str("FAILED"),
        }
    }

    pub fn is_terminal(&self) -> (yes: bool)
        ensures
            yes == self.terminal(),
    {
        match self {
            OperationStatus::PENDING => false,
            _ => true,
        }
    }

    pub fn can_become(&self, next: &OperationStatus) -> (yes: bool)
        ensures
            yes == self.may_become(*next),
    {
        !self.is_terminal() && next.is_terminal()
    }
}

/// The record of an operation.
#[derive(Debug, PartialEq, Eq)]
pub struct Operation {
    pub id: Option<String>,
    pub operation_id: String,
    pub kind: OperationType,
    pub status: OperationStatus,
    /// The parameters of the request, as a JSON document.
    pub params: String,
    pub error: Option<String>,
    pub transaction_hash: Option<String>,
    /// Milliseconds since the epoch.
    pub created_at: i64,
    /// Milliseconds since the epoch.
    pub updated_at: i64,
}

pub ghost struct OperationView {
    pub id: Option<Seq<char>>,
    pub operation_id: Seq<char>,
    pub kind: OperationType,
    pub status: OperationStatus,
    pub params: Seq<char>,
    pub error: Option<Seq<char>>,
    pub transaction_hash: Option<Seq<char>>,
    pub created_at: i64,
    pub updated_at: i64,
}

impl View for Operation {
    type V = OperationView;

    open spec fn view(&self) -> OperationView {
        OperationView {
            id: self.id.deep_view(),
            operation_id: self.operation_id@,
            kind: self.kind,
            status: self.status,
            params: self.params@,
            error: self.error.deep_view(),
            transaction_hash: self.transaction_hash.deep_view(),
            created_at: self.created_at,
            updated_at: self.updated_at,
        }
    }
}

impl Operation {
    /// The record of an operation that the ledger has just accepted.
    pub fn pending(operation_id: &str, kind: OperationType, params: &str, now: i64) -> (operation:
        Operation)
        ensures
            operation@ == (OperationView {
                id: None,
                operation_id: operation_id@,
                kind,
                status: OperationStatus::PENDING,
                params: params@,
                error: None,
                transaction_hash: None,
                created_at: now,
                updated_at: now,
            }),
    {
        Operation {
            id: None,
            operation_id: String::from_str(operation_id),
            kind,
            status: OperationStatus::PENDING,
            params: String::from_str(params),
            error: None,
            transaction_hash: None,
            created_at: now,
            updated_at: now,
        }
    }
}

/// What the store said when it was asked for an operation.
#[derive(Debug, PartialEq, Eq)]
pub enum OperationLookup {
    Found { operation: Operation },
    Absent,
    Failed,
}

/// What a caller is told of an operation.
#[derive(Debug, PartialEq, Eq)]
pub struct OperationReport {
    pub status: OperationStatus,
    pub kind: OperationType,
    /// The item that the operation is about, if its parameters name one.
    pub item_id: Option<String>,
}

pub ghost struct OperationReportView {
    pub status: OperationStatus,
    pub kind: OperationType,
    pub item_id: Option<Seq<char>>,
}

impl View for OperationReport {
    type V = OperationReportView;

    open spec fn view(&self) -> OperationReportView {
        OperationReportView {
            status: self.status,
            kind: self.kind,
            item_id: self.item_id.deep_view(),
        }
    }
}

/// Why the status of an operation could not be told.
#[derive(Clone, Copy, Debug, PartialEq, Eq, Structural)]
pub enum StatusError {
    /// No operation has the identifier.
    NotFound,
    /// The store could not be read.
    StoreFailure,
}

impl StatusError {
    pub open spec fn kind_of(self) -> ErrorKind {
        match self {
            StatusError::NotFound => ErrorKind::NotFound,
            StatusError::StoreFailure => ErrorKind::StoreFailure,
        }
    }

    pub fn kind(&self) -> (kind: ErrorKind)
        ensures
            kind == self.kind_of(),
    {
        match self {
            StatusError::NotFound => ErrorKind::NotFound,
            StatusError::StoreFailure => ErrorKind::StoreFailure,
        }
    }
}

/// The report on `operation`, given the item that its parameters name.
pub open spec fn report_of(operation: OperationView, item_id: Option<Seq<char>>) -> OperationReportView {
    OperationReportView { status: operation.status, kind: operation.kind, item_id }
}

/// What a caller is told where the store holds `record` under the
/// identifier asked for: the report on it, with the item that its
/// parameters name under `item_id`; where it holds none, that there is none.
pub open spec fn told_of(record: Option<OperationView>) -> Result<OperationReportView, StatusError> {
    match record {
        Some(operation) => Ok(
            report_of(operation, json_text_field_of(operation.params, "item_id"@)),
        ),
        None => Err(StatusError::NotFound),
    }
}

/// What a lookup comes to.
pub open spec fn status_of(lookup: OperationLookup) -> Result<OperationReportView, StatusError> {
    match lookup {
        OperationLookup::Found { operation } => told_of(Some(operation@)),
        OperationLookup::Absent => told_of(None),
        OperationLookup::Failed => Err(StatusError::StoreFailure),
    }
}

/// The report on `operation`, given the item that its parameters name.
pub fn report(operation: &Operation, item_id: Option<String>) -> (told: OperationReport)
    ensures
        told@ == report_of(operation@, item_id.deep_view()),
{
    OperationReport { status: operation.status, kind: operation.kind, item_id }
}

/// Tells the status of the operation that was looked up.
pub fn get_status(lookup: &OperationLookup) -> (result: Result<OperationReport, StatusError>)
    ensures
        match (result, status_of(*lookup)) {
            (Ok(told), Ok(expected)) => told@ == expected,
            (Err(why), Err(expected)) => why == expected,
            _ => false,
        },
{
    match lookup {
        OperationLookup::Found { operation } => {
            let item_id = json_text_field(operation.params.as_str(), "item_id");
            Ok(report(operation, item_id))
        },
        OperationLookup::Absent => Err(StatusError::NotFound),
        OperationLookup::Failed => Err(StatusError::StoreFailure),
    }
}

/// The recorded operations, by operation identifier.
pub ghost struct Tracker {
    pub records: Map<Seq<char>, OperationView>,
}

impl Tracker {
    /// The record under `operation_id`, if there is one.
    pub open spec fn find(self, operation_id: Seq<char>) -> Option<OperationView> {
        if self.records.dom().contains(operation_id) {
            Some(self.records[operation_id])
        } else {
            None
        }
    }

    /// The records after the ledger accepted a request under `operation_id`.
    pub open spec fn accept(
        self,
        operation_id: Seq<char>,
        kind: OperationType,
        params: Seq<char>,
        now: i64,
    ) -> Tracker {
        Tracker {
            records: self.records.insert(
                operation_id,
                OperationView {
                    id: None,
                    operation_id,
                    kind,
                    status: OperationStatus::PENDING,
                    params,
                    error: None,
                    transaction_hash: None,
                    created_at: now,
                    updated_at: now,
                },
            ),
        }
    }

    /// The records after a worker recorded `status` for `operation_id`.
    /// A change that `may_become` does not allow is not made.
    pub open spec fn mark(self, operation_id: Seq<char>, status: OperationStatus) -> Tracker {
        if self.records.dom().contains(operation_id) && self.records[operation_id].status.may_become(
            status,
        ) {
            Tracker {
                records: self.records.insert(
                    operation_id,
                    OperationView { status, ..self.records[operation_id] },
                ),
            }
        } else {
            self
        }
    }
}

/// An operation that the ledger accepted is reported as pending, with its
/// type, for as long as no worker has marked it; once a worker has
/// completed or failed it, it is reported with that status, and stays so.
pub proof fn lemma_pending_until_marked(
    tracker: Tracker,
    operation_id: Seq<char>,
    kind: OperationType,
    params: Seq<char>,
    now: i64,
    outcome: OperationStatus,
    later: OperationStatus,
)
    requires
        outcome.terminal(),
    ensures
        ({
            let accepted = tracker.accept(operation_id, kind, params, now);
            let marked = accepted.mark(operation_id, outcome);
            &&& told_of(accepted.find(operation_id)) is Ok
            &&& told_of(accepted.find(operation_id))->Ok_0.status == OperationStatus::PENDING
            &&& told_of(accepted.find(operation_id))->Ok_0.kind == kind
            &&& told_of(marked.find(operation_id)) is Ok
            &&& told_of(marked.find(operation_id))->Ok_0.status == outcome
            &&& marked.mark(operation_id, later) == marked
        }),
{
}

/// An operation without a record is reported as not found, and an
/// operation with a record never is: not found is told apart from pending.
pub proof fn lemma_not_found_is_not_pending(tracker: Tracker, operation_id: Seq<char>)
    ensures
        !tracker.records.dom().contains(operation_id) <==> told_of(tracker.find(operation_id))
            == Err::<OperationReportView, StatusError>(StatusError::NotFound),
        tracker.records.dom().contains(operation_id) ==> told_of(tracker.find(operation_id))
            is Ok && told_of(tracker.find(operation_id))->Ok_0.status
            == tracker.records[operation_id].status,
{
}

} // verus!
