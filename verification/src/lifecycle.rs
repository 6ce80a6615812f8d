//! What the requests that change the ledger have in common: how they end
//! when the ledger or the store lets them down.

use vstd::prelude::*;
use crate::errors::ErrorKind;
use crate::upstream::LedgerVerdictView;

verus! {

/// Why a request that changes the ledger did not go through.
#[derive(Debug, PartialEq, Eq)]
pub enum LifecycleError {
    /// The ledger refused the request; the message is for the caller.
    Rejected { message: String },
    /// The ledger answered with a status that is not known.
    UnexpectedReply,
    /// The ledger could not be reached.
    LedgerUnreachable,
    /// The answer of the ledger could not be read.
    LedgerUnreadable,
    /// The store could not be read or written.
    StoreFailure,
}

pub ghost enum LifecycleErrorView {
    Rejected { message: Seq<char> },
    UnexpectedReply,
    LedgerUnreachable,
    LedgerUnreadable,
    StoreFailure,
}

impl View for LifecycleError {
    type V = LifecycleErrorView;

    open spec fn view(&self) -> LifecycleErrorView {
        match self {
            LifecycleError::Rejected { message } => LifecycleErrorView::Rejected {
                message: message@,
            },
            LifecycleError::UnexpectedReply => LifecycleErrorView::UnexpectedReply,
            LifecycleError::LedgerUnreachable => LifecycleErrorView::LedgerUnreachable,
            LifecycleError::LedgerUnreadable => LifecycleErrorView::LedgerUnreadable,
            LifecycleError::StoreFailure => LifecycleErrorView::StoreFailure,
        }
    }
}

impl DeepView for LifecycleError {
    type V = LifecycleErrorView;

    open spec fn deep_view(&self) -> LifecycleErrorView {
        self@
    }
}

impl LifecycleErrorView {
    pub open spec fn kind_of(self) -> ErrorKind {
        match self {
            LifecycleErrorView::Rejected { .. } => ErrorKind::InvalidInput,
            LifecycleErrorView::StoreFailure => ErrorKind::StoreFailure,
            _ => ErrorKind::UpstreamFailure,
        }
    }
}

/// The failure that a verdict of the ledger stands for; none where the
/// ledger took the request.
pub open spec fn refusal_of(verdict: LedgerVerdictView) -> Option<LifecycleErrorView> {
    match verdict {
        LedgerVerdictView::Pending { .. } => None,
        LedgerVerdictView::Rejected { message } => Some(LifecycleErrorView::Rejected { message }),
        LedgerVerdictView::Unexpected => Some(LifecycleErrorView::UnexpectedReply),
        LedgerVerdictView::Unreachable => Some(LifecycleErrorView::LedgerUnreachable),
        LedgerVerdictView::Unreadable => Some(LifecycleErrorView::LedgerUnreadable),
    }
}

impl Clone for LifecycleError {
    fn clone(&self) -> (copy: Self)
        ensures
            copy@ == self@,
    {
        match self {
            LifecycleError::Rejected { message } => LifecycleError::Rejected {
                message: message.clone(),
            },
            LifecycleError::UnexpectedReply => LifecycleError::UnexpectedReply,
            LifecycleError::LedgerUnreachable => LifecycleError::LedgerUnreachable,
            LifecycleError::LedgerUnreadable => LifecycleError::LedgerUnreadable,
            LifecycleError::StoreFailure => LifecycleError::StoreFailure,
        }
    }
}

impl LifecycleError {
    pub fn kind(&self) -> (kind: ErrorKind)
        ensures
            kind == self@.kind_of(),
    {
        match self {
            LifecycleError::Rejected { .. } => ErrorKind::InvalidInput,
            LifecycleError::StoreFailure => ErrorKind::StoreFailure,
            _ => ErrorKind::UpstreamFailure,
        }
    }
}

} // verus!
