//! What the callers of the service are told: a status marker, a message
//! for a person to read, and what the request has to show for itself.

use vstd::prelude::*;
use crate::handover::{TransferError, TransferErrorView};
use crate::ledger::BidError;
use crate::lifecycle::{LifecycleError, LifecycleErrorView};
use crate::listing::{ListingError, ListingErrorView};
use crate::operations::{OperationReport, OperationReportView, StatusError};
use crate::text::copy_text;

verus! {

/// The status marker of a request that went through.
pub open spec fn success_marker() -> Seq<char> {
    "success"@
}

/// The status marker of a request that did not go through.
pub open spec fn error_marker() -> Seq<char> {
    "error"@
}

/// The answer to a bid.
#[derive(Debug, PartialEq, Eq)]
pub struct PlaceBidResponse {
    pub status: String,
    pub message: String,
}

impl PlaceBidResponse {
    /// The answer to a bid with this outcome.
    pub fn from_outcome(outcome: &Result<i64, BidError>) -> (response: PlaceBidResponse)
        ensures
            match *outcome {
                Ok(_) => response.status@ == success_marker() && response.message@
                    == "Bid placed successfully"@,
                Err(why) => response.status@ == error_marker() && response.message@
                    == why.message_of(),
            },
    {
        match outcome {
            Ok(_) => PlaceBidResponse {
                status: String::from_str("success"),
                message: String::from_str("Bid placed successfully"),
            },
            Err(why) => PlaceBidResponse {
                status: String::from_str("error"),
                message: why.message(),
            },
        }
    }
}

/// The answer to the question for the status of an operation.
#[derive(Debug, PartialEq, Eq)]
pub struct OperationStatusResponse {
    pub status: String,
    pub operation_status: String,
    pub operation: String,
    pub item_id: Option<String>,
}

pub ghost struct OperationStatusResponseView {
    pub status: Seq<char>,
    pub operation_status: Seq<char>,
    pub operation: Seq<char>,
    pub item_id: Option<Seq<char>>,
}

impl View for OperationStatusResponse {
    type V = OperationStatusResponseView;

    open spec fn view(&self) -> OperationStatusResponseView {
        OperationStatusResponseView {
            status: self.status@,
            operation_status: self.operation_status@,
            operation: self.operation@,
            item_id: self.item_id.deep_view(),
        }
    }
}

/// The answer for an operation that was found, with the names of its
/// status and type; for one that was not found, and for a store that
/// could not be read, a word for that in place of the status.
pub open spec fn status_response_of(told: Result<OperationReportView, StatusError>) -> OperationStatusResponseView {
    match told {
        Ok(report) => OperationStatusResponseView {
            status: success_marker(),
            operation_status: report.status.name(),
            operation: report.kind.name(),
            item_id: report.item_id,
        },
        Err(StatusError::NotFound) => OperationStatusResponseView {
            status: error_marker(),
            operation_status: "not_found"@,
            operation: Seq::empty(),
            item_id: None,
        },
        Err(StatusError::StoreFailure) => OperationStatusResponseView {
            status: error_marker(),
            operation_status: "server_error"@,
            operation: Seq::empty(),
            item_id: None,
        },
    }
}

impl OperationStatusResponse {
    /// The answer for what was found out of an operation.
    pub fn from_status(told: &Result<OperationReport, StatusError>) -> (response:
        OperationStatusResponse)
        ensures
            response@ == status_response_of(
                match *told {
                    Ok(report) => Ok(report@),
                    Err(why) => Err(why),
                },
            ),
    {
        match told {
            Ok(report) => OperationStatusResponse {
                status: String::from_str("success"),
                operation_status: report.status.to_string(),
                operation: report.kind.to_string(),
                item_id: copy_text(&report.item_id),
            },
            Err(StatusError::NotFound) => OperationStatusResponse {
                status: String::from_str("error"),
                operation_status: String::from_str("not_found"),
                operation: String::new(),
                item_id: None,
            },
            Err(StatusError::StoreFailure) => OperationStatusResponse {
                status: String::from_str("error"),
                operation_status: String::from_str("server_error"),
                operation: String::new(),
                item_id: None,
            },
        }
    }
}

/// One suggestion for a search that is being typed.
#[derive(Debug, PartialEq, Eq)]
pub struct AutocompleteResponse {
    pub item_id: String,
    pub item_name: String,
    pub matched_field: String,
}

/// The answer to a request that changes the ledger.
#[derive(Debug, PartialEq, Eq)]
pub struct LifecycleResponse {
    pub status: String,
    pub operation_id: Option<String>,
    pub message: String,
}

pub ghost struct LifecycleResponseView {
    pub status: Seq<char>,
    pub operation_id: Option<Seq<char>>,
    pub message: Seq<char>,
}

impl View for LifecycleResponse {
    type V = LifecycleResponseView;

    open spec fn view(&self) -> LifecycleResponseView {
        LifecycleResponseView {
            status: self.status@,
            operation_id: self.operation_id.deep_view(),
            message: self.message@,
        }
    }
}

/// What a caller reads where the ledger or the store let a request down.
/// `unreachable` and `store` are the words of the request at hand for a
/// ledger that cannot be reached and for a failing store.
pub open spec fn failure_text(
    why: LifecycleErrorView,
    unreachable: Seq<char>,
    store: Seq<char>,
) -> Seq<char> {
    match why {
        LifecycleErrorView::Rejected { message } => message,
        LifecycleErrorView::UnexpectedReply => "Unexpected blockchain response"@,
        LifecycleErrorView::LedgerUnreachable => unreachable,
        LifecycleErrorView::LedgerUnreadable => "Failed to parse blockchain response"@,
        LifecycleErrorView::StoreFailure => store,
    }
}

fn failure_message(why: &LifecycleError, unreachable: &str, store: &str) -> (text: String)
    ensures
        text@ == failure_text(why@, unreachable@, store@),
{
    match why {
        LifecycleError::Rejected { message } => message.clone(),
        LifecycleError::UnexpectedReply => String::from_str("Unexpected blockchain response"),
        LifecycleError::LedgerUnreachable => String::from_str(unreachable),
        LifecycleError::LedgerUnreadable => String::from_str("Failed to parse blockchain response"),
        LifecycleError::StoreFailure => String::from_str(store),
    }
}

/// The answer to a deletion.
pub open spec fn removal_response_of(outcome: Result<Option<Seq<char>>, LifecycleErrorView>) -> LifecycleResponseView {
    match outcome {
        Ok(operation_id) => LifecycleResponseView {
            status: success_marker(),
            operation_id,
            message: "Item Will Be Deleted Shortly"@,
        },
        Err(why) => LifecycleResponseView {
            status: error_marker(),
            operation_id: None,
            message: failure_text(
                why,
                "Failed to connect to blockchain API"@,
                "Failed to delete item from database"@,
            ),
        },
    }
}

/// The answer to a deletion with this outcome.
pub fn removal_response(outcome: &Result<Option<String>, LifecycleError>) -> (response:
    LifecycleResponse)
    ensures
        response@ == removal_response_of(
            match *outcome {
                Ok(operation_id) => Ok(operation_id.deep_view()),
                Err(why) => Err(why@),
            },
        ),
{
    match outcome {
        Ok(operation_id) => LifecycleResponse {
            status: String::from_str("success"),
            operation_id: copy_text(operation_id),
            message: String::from_str("Item Will Be Deleted Shortly"),
        },
        Err(why) => LifecycleResponse {
            status: String::from_str("error"),
            operation_id: None,
            message: failure_message(
                why,
                "Failed to connect to blockchain API",
                "Failed to delete item from database",
            ),
        },
    }
}

/// The answer to a transfer.
pub open spec fn transfer_response_of(outcome: Result<Option<Seq<char>>, TransferErrorView>) -> LifecycleResponseView {
    match outcome {
        Ok(operation_id) => LifecycleResponseView {
            status: success_marker(),
            operation_id,
            message: "Item Transfer Initiated"@,
        },
        Err(why) => LifecycleResponseView {
            status: error_marker(),
            operation_id: None,
            message: match why {
                TransferErrorView::Refused { refusal } => refusal.message_of(),
                TransferErrorView::AvailabilityUnknown => "Failed to check item availability"@,
                TransferErrorView::Failed { why } => failure_text(
                    why,
                    "Failed to connect to blockchain API"@,
                    "Failed to update item status"@,
                ),
            },
        },
    }
}

/// The answer to a transfer with this outcome.
pub fn transfer_response(outcome: &Result<Option<String>, TransferError>) -> (response:
    LifecycleResponse)
    ensures
        response@ == transfer_response_of(
            match *outcome {
                Ok(operation_id) => Ok(operation_id.deep_view()),
                Err(why) => Err(why@),
            },
        ),
{
    match outcome {
        Ok(operation_id) => LifecycleResponse {
            status: String::from_str("success"),
            operation_id: copy_text(operation_id),
            message: String::from_str("Item Transfer Initiated"),
        },
        Err(why) => LifecycleResponse {
            status: String::from_str("error"),
            operation_id: None,
            message: match why {
                TransferError::Refused { refusal } => refusal.message(),
                TransferError::AvailabilityUnknown => String::from_str(
                    "Failed to check item availability",
                ),
                TransferError::Failed { why } => failure_message(
                    why,
                    "Failed to connect to blockchain API",
                    "Failed to update item status",
                ),
            },
        },
    }
}

/// The answer to a listing.
#[derive(Debug, PartialEq, Eq)]
pub struct CreateItemResponse {
    pub status: String,
    pub item_id: String,
    pub operation_id: Option<String>,
    pub message: String,
}

pub ghost struct CreateItemResponseView {
    pub status: Seq<char>,
    pub item_id: Seq<char>,
    pub operation_id: Option<Seq<char>>,
    pub message: Seq<char>,
}

impl View for CreateItemResponse {
    type V = CreateItemResponseView;

    open spec fn view(&self) -> CreateItemResponseView {
        CreateItemResponseView {
            status: self.status@,
            item_id: self.item_id@,
            operation_id: self.operation_id.deep_view(),
            message: self.message@,
        }
    }
}

/// The answer to the listing of `item_id`. The operation that the ledger
/// started is named where the item was listed, and also where the ledger
/// took the request but the item could not be inserted.
pub open spec fn listing_response_of(
    item_id: Seq<char>,
    operation_id: Option<Seq<char>>,
    outcome: Result<Option<Seq<char>>, ListingErrorView>,
) -> CreateItemResponseView {
    match outcome {
        Ok(started) => CreateItemResponseView {
            status: success_marker(),
            item_id,
            operation_id: started,
            message: "Item successfully submitted, it will shortly be up for auction"@,
        },
        Err(ListingErrorView::UploadFailed { message }) => CreateItemResponseView {
            status: error_marker(),
            item_id,
            operation_id: None,
            message: "Image upload failed: "@ + message,
        },
        Err(ListingErrorView::Failed { why }) => CreateItemResponseView {
            status: error_marker(),
            item_id,
            operation_id: None,
            message: failure_text(
                why,
                "Blockchain API submission failed"@,
                "Failed to insert item into database"@,
            ),
        },
        Err(ListingErrorView::InsertFailed { detail }) => CreateItemResponseView {
            status: error_marker(),
            item_id,
            operation_id,
            message: "Failed to insert item into database: "@ + detail,
        },
    }
}

/// The answer to the listing of `item_id` with this outcome, where the
/// ledger started `operation_id`.
pub fn listing_response(
    item_id: &str,
    operation_id: &Option<String>,
    outcome: &Result<Option<String>, ListingError>,
) -> (response: CreateItemResponse)
    ensures
        response@ == listing_response_of(
            item_id@,
            operation_id.deep_view(),
            match *outcome {
                Ok(started) => Ok(started.deep_view()),
                Err(why) => Err(why@),
            },
        ),
{
    match outcome {
        Ok(started) => CreateItemResponse {
            status: String::from_str("success"),
            item_id: String::from_str(item_id),
            operation_id: copy_text(started),
            message: String::from_str(
                "Item successfully submitted, it will shortly be up for auction",
            ),
        },
        Err(ListingError::UploadFailed { message }) => CreateItemResponse {
            status: String::from_str("error"),
            item_id: String::from_str(item_id),
            operation_id: None,
            message: String::from_str("Image upload failed: ").concat(message.as_str()),
        },
        Err(ListingError::Failed { why }) => CreateItemResponse {
            status: String::from_str("error"),
            item_id: String::from_str(item_id),
            operation_id: None,
            message: failure_message(
                why,
                "Blockchain API submission failed",
                "Failed to insert item into database",
            ),
        },
        Err(ListingError::InsertFailed { detail }) => CreateItemResponse {
            status: String::from_str("error"),
            item_id: String::from_str(item_id),
            operation_id: copy_text(operation_id),
            message: String::from_str("Failed to insert item into database: ").concat(
                detail.as_str(),
            ),
        },
    }
}

} // verus!
