//! The answers of the ledger service.
//!
//! Every request that changes the ledger is answered with a status:
//! `pending` with the identifier of the operation that was started, `error`
//! with a message for the caller, or something that this service does not
//! know, which it treats as a failure of the ledger.

use vstd::prelude::*;
use crate::errors::ErrorKind;
use crate::text::str_eq;

verus! {

/// What the ledger sent back, or that it sent nothing that could be read.
#[derive(Debug, PartialEq, Eq)]
pub enum LedgerAnswer {
    /// The ledger could not be reached.
    Unreachable,
    /// The ledger answered, but not in the agreed form.
    Unreadable,
    /// The ledger answered in the agreed form.
    Reply { status: String, operation_id: Option<String>, message: String },
}

/// What an answer of the ledger means for the request.
#[derive(Debug, PartialEq, Eq)]
pub enum LedgerVerdict {
    /// The ledger took the request; the operation is on its way.
    Pending { operation_id: Option<String> },
    /// The ledger refused the request; the message is for the caller.
    Rejected { message: String },
    /// The ledger answered with a status that is not known.
    Unexpected,
    /// The ledger could not be reached.
    Unreachable,
    /// The answer of the ledger could not be read.
    Unreadable,
}

pub ghost enum LedgerVerdictView {
    Pending { operation_id: Option<Seq<char>> },
    Rejected { message: Seq<char> },
    Unexpected,
    Unreachable,
    Unreadable,
}

impl View for LedgerVerdict {
    type V = LedgerVerdictView;

    open spec fn view(&self) -> LedgerVerdictView {
        match self {
            LedgerVerdict::Pending { operation_id } => LedgerVerdictView::Pending {
                operation_id: operation_id.deep_view(),
            },
            LedgerVerdict::Rejected { message } => LedgerVerdictView::Rejected { message: message@ },
            LedgerVerdict::Unexpected => LedgerVerdictView::Unexpected,
            LedgerVerdict::Unreachable => LedgerVerdictView::Unreachable,
            LedgerVerdict::Unreadable => LedgerVerdictView::Unreadable,
        }
    }
}

impl LedgerVerdictView {
    /// The kind of failure that the verdict stands for; none where the
    /// request was taken.
    pub open spec fn failure(self) -> Option<ErrorKind> {
        match self {
            LedgerVerdictView::Pending { .. } => None,
            LedgerVerdictView::Rejected { .. } => Some(ErrorKind::InvalidInput),
            _ => Some(ErrorKind::UpstreamFailure),
        }
    }
}

/// The meaning of an answer with the given status.
pub open spec fn verdict_of(
    status: Seq<char>,
    operation_id: Option<Seq<char>>,
    message: Seq<char>,
) -> LedgerVerdictView {
    if status == "pending"@ {
        LedgerVerdictView::Pending { operation_id }
    } else if status == "error"@ {
        LedgerVerdictView::Rejected { message }
    } else {
        LedgerVerdictView::Unexpected
    }
}

/// The meaning of what came back from the ledger.
pub open spec fn judged(answer: LedgerAnswer) -> LedgerVerdictView {
    match answer {
        LedgerAnswer::Unreachable => LedgerVerdictView::Unreachable,
        LedgerAnswer::Unreadable => LedgerVerdictView::Unreadable,
        LedgerAnswer::Reply { status, operation_id, message } => verdict_of(
            status@,
            operation_id.deep_view(),
            message@,
        ),
    }
}

/// Reads the status of an answer.
pub fn classify_reply(status: &str, operation_id: Option<String>, message: String) -> (verdict:
    LedgerVerdict)
    ensures
        verdict@ == verdict_of(status@, operation_id.deep_view(), message@),
{
    if str_eq(status, "pending") {
        LedgerVerdict::Pending { operation_id }
    } else if str_eq(status, "error") {
        LedgerVerdict::Rejected { message }
    } else {
        LedgerVerdict::Unexpected
    }
}

/// Says what came back from the ledger means for the request.
pub fn judge(answer: LedgerAnswer) -> (verdict: LedgerVerdict)
    ensures
        verdict@ == judged(answer),
{
    match answer {
        LedgerAnswer::Unreachable => LedgerVerdict::Unreachable,
        LedgerAnswer::Unreadable => LedgerVerdict::Unreadable,
        LedgerAnswer::Reply { status, operation_id, message } => classify_reply(
            status.as_str(),
            operation_id,
            message,
        ),
    }
}

impl LedgerVerdict {
    /// The kind of failure that the verdict stands for, if any.
    pub fn failure(&self) -> (kind: Option<ErrorKind>)
        ensures
            kind == self@.failure(),
    {
        match self {
            LedgerVerdict::Pending { .. } => None,
            LedgerVerdict::Rejected { .. } => Some(ErrorKind::InvalidInput),
            _ => Some(ErrorKind::UpstreamFailure),
        }
    }
}

/// What the ledger says of the items that it holds for a user.
#[derive(Debug, PartialEq, Eq)]
pub enum HoldingsVerdict {
    /// The identifiers of the items of the user.
    Listed { item_ids: Vec<String> },
    /// The ledger reported success but sent no list.
    Incomplete,
    /// The ledger refused the request; the message is for the caller.
    Rejected { message: String },
    /// The ledger answered with a status that is not known.
    Unexpected,
}

pub ghost enum HoldingsVerdictView {
    Listed { item_ids: Seq<Seq<char>> },
    Incomplete,
    Rejected { message: Seq<char> },
    Unexpected,
}

impl View for HoldingsVerdict {
    type V = HoldingsVerdictView;

    open spec fn view(&self) -> HoldingsVerdictView {
        match self {
            HoldingsVerdict::Listed { item_ids } => HoldingsVerdictView::Listed {
                item_ids: item_ids.deep_view(),
            },
            HoldingsVerdict::Incomplete => HoldingsVerdictView::Incomplete,
            HoldingsVerdict::Rejected { message } => HoldingsVerdictView::Rejected {
                message: message@,
            },
            HoldingsVerdict::Unexpected => HoldingsVerdictView::Unexpected,
        }
    }
}

/// The meaning of an answer to the question for the items of a user. A
/// refusal without a message is passed on as an unknown error.
pub open spec fn holdings_of(
    status: Seq<char>,
    item_ids: Option<Seq<Seq<char>>>,
    message: Option<Seq<char>>,
) -> HoldingsVerdictView {
    if status == "success"@ {
        match item_ids {
            Some(item_ids) => HoldingsVerdictView::Listed { item_ids },
            None => HoldingsVerdictView::Incomplete,
        }
    } else if status == "error"@ {
        HoldingsVerdictView::Rejected {
            message: match message {
                Some(message) => message,
                None => "Unknown error"@,
            },
        }
    } else {
        HoldingsVerdictView::Unexpected
    }
}

/// Reads the answer to the question for the items of a user.
pub fn classify_holdings(
    status: &str,
    item_ids: Option<Vec<String>>,
    message: Option<String>,
) -> (verdict: HoldingsVerdict)
    ensures
        verdict@ == holdings_of(status@, item_ids.deep_view(), message.deep_view()),
{
    if str_eq(status, "success") {
        match item_ids {
            Some(item_ids) => HoldingsVerdict::Listed { item_ids },
            None => HoldingsVerdict::Incomplete,
        }
    } else if str_eq(status, "error") {
        match message {
            Some(message) => HoldingsVerdict::Rejected { message },
            None => HoldingsVerdict::Rejected { message: String::from_str("Unknown error") },
        }
    } else {
        HoldingsVerdict::Unexpected
    }
}

} // verus!
