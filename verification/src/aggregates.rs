//! Lists that are costly to compute and are kept in the cache for a minute:
//! the home page, the top categories and the items of a category.
//!
//! A list is taken from the cache where it is there. Else it is computed
//! from the store and, unless it is empty, left in the cache. What the list
//! holds is not looked at here: the service keeps it and is told what to do
//! with it.

use vstd::prelude::*;
use crate::errors::ErrorKind;
use crate::keys::{create_prefixed_key, prefixed};
use crate::storage::{decimal, decimal_of};
use crate::text::{lowercase_of, to_lowercase};

verus! {

/// How long a cached list lives, in seconds.
pub const AGGREGATE_TTL_SECONDS: u64 = 60;

/// Number of top categories where none is asked for.
pub const DEFAULT_TOP_CATEGORIES: usize = 10;

/// Which list is asked for.
#[derive(Clone, Copy, Debug, PartialEq, Eq, Structural)]
pub enum AggregateKind {
    HomePage,
    TopCategories,
    CategoryItems,
}

impl AggregateKind {
    /// Whether the store is asked if there is anything to list before the
    /// list is computed.
    pub open spec fn counted(self) -> bool {
        self != AggregateKind::TopCategories
    }

    pub fn is_counted(&self) -> (yes: bool)
        ensures
            yes == self.counted(),
    {
        match self {
            AggregateKind::TopCategories => false,
            _ => true,
        }
    }
}

/// Why a list could not be given.
#[derive(Clone, Copy, Debug, PartialEq, Eq, Structural)]
pub enum AggregateError {
    /// The store could not say whether there is anything to list.
    CountFailed,
    /// The store could not compute the list.
    ComputeFailed,
}

/// What a caller reads where a list could not be given.
pub open spec fn aggregate_failure_text(kind: AggregateKind, why: AggregateError) -> Seq<char> {
    match (kind, why) {
        (AggregateKind::HomePage, AggregateError::CountFailed) => "Failed to check for active items"@,
        (AggregateKind::HomePage, AggregateError::ComputeFailed) => "Failed to aggregate home data"@,
        (AggregateKind::TopCategories, _) => "Failed to retrieve top categories"@,
        (AggregateKind::CategoryItems, AggregateError::CountFailed) => "Failed to check category items"@,
        (AggregateKind::CategoryItems, AggregateError::ComputeFailed) => "Failed to retrieve category items"@,
    }
}

pub fn aggregate_failure_message(kind: AggregateKind, why: AggregateError) -> (text: String)
    ensures
        text@ == aggregate_failure_text(kind, why),
{
    match (kind, why) {
        (AggregateKind::HomePage, AggregateError::CountFailed) => String::from_str(
            "Failed to check for active items",
        ),
        (AggregateKind::HomePage, AggregateError::ComputeFailed) => String::from_str(
            "Failed to aggregate home data",
        ),
        (AggregateKind::TopCategories, _) => String::from_str("Failed to retrieve top categories"),
        (AggregateKind::CategoryItems, AggregateError::CountFailed) => String::from_str(
            "Failed to check category items",
        ),
        (AggregateKind::CategoryItems, AggregateError::ComputeFailed) => String::from_str(
            "Failed to retrieve category items",
        ),
    }
}

impl AggregateError {
    pub open spec fn kind_of(self) -> ErrorKind {
        ErrorKind::StoreFailure
    }

    pub fn kind(&self) -> (kind: ErrorKind)
        ensures
            kind == self.kind_of(),
    {
        ErrorKind::StoreFailure
    }
}

/// Key of the cached home page.
pub open spec fn home_page_key() -> Seq<char> {
    prefixed("homepage"@, Seq::empty())
}

/// Key of the cached list of the `limit` top categories.
pub open spec fn top_categories_key(limit: nat) -> Seq<char> {
    prefixed("top_categories"@, decimal_of(limit))
}

/// Key of the cached items of a category, named in lower case.
pub open spec fn category_items_key(category: Seq<char>) -> Seq<char> {
    prefixed("category_items:"@ + category, Seq::empty())
}

/// The number of top categories that is listed for a request.
pub open spec fn top_limit(asked: Option<usize>) -> usize {
    match asked {
        Some(limit) => limit,
        None => DEFAULT_TOP_CATEGORIES,
    }
}

/// How a list was come by.
#[derive(Clone, Copy, Debug, PartialEq, Eq)]
pub enum AggregateOutcome {
    /// The list is the one that the cache gave.
    FromCache,
    /// There is nothing to list.
    Empty,
    /// The list is the one that the store computed.
    Fresh,
    /// The list could not be given.
    Failed { why: AggregateError },
}

/// How far the request for a list has come.
#[derive(Clone, Copy, Debug, PartialEq, Eq)]
pub enum AggregatePhase {
    /// The cache is being asked.
    ReadCache,
    /// The store is being asked whether there is anything to list.
    Count,
    /// The store is computing the list.
    Compute,
    /// The list is being left in the cache.
    FillCache,
    /// Nothing is left to do.
    Done { outcome: AggregateOutcome },
}

/// What came of the call that the request asked for.
#[derive(Clone, Copy, Debug, PartialEq, Eq)]
pub enum AggregateEvent {
    CacheHit,
    CacheMiss,
    CacheFailed,
    /// The number of entries that could be listed.
    Counted { count: u64 },
    CountFailed,
    /// The number of rows of the computed list.
    Computed { rows: usize },
    ComputeFailed,
    /// The list was written, or the write was tried.
    CacheFilled,
}

/// The call that the service has to make next.
#[derive(Debug, PartialEq, Eq)]
pub enum AggregateAction {
    /// Read the list from the cache.
    ReadCache { key: String },
    /// Ask the store how many entries could be listed.
    CountEntries,
    /// Have the store compute the list.
    Compute,
    /// Write the computed list to the cache, to expire after the given time.
    FillCache { key: String, ttl_seconds: u64 },
    /// Answer the request.
    Finish { outcome: AggregateOutcome },
}

pub ghost enum AggregateActionView {
    ReadCache { key: Seq<char> },
    CountEntries,
    Compute,
    FillCache { key: Seq<char>, ttl_seconds: u64 },
    Finish { outcome: AggregateOutcome },
}

impl View for AggregateAction {
    type V = AggregateActionView;

    open spec fn view(&self) -> AggregateActionView {
        match self {
            AggregateAction::ReadCache { key } => AggregateActionView::ReadCache { key: key@ },
            AggregateAction::CountEntries => AggregateActionView::CountEntries,
            AggregateAction::Compute => AggregateActionView::Compute,
            AggregateAction::FillCache { key, ttl_seconds } => AggregateActionView::FillCache {
                key: key@,
                ttl_seconds: *ttl_seconds,
            },
            AggregateAction::Finish { outcome } => AggregateActionView::Finish { outcome: *outcome },
        }
    }
}

/// The phase that follows `phase` when `event` comes in. A failing cache
/// counts as a miss. An event that does not answer the pending call leaves
/// the phase as it is.
pub open spec fn aggregate_phase_after(
    kind: AggregateKind,
    phase: AggregatePhase,
    event: AggregateEvent,
) -> AggregatePhase {
    match (phase, event) {
        (AggregatePhase::ReadCache, AggregateEvent::CacheHit) => AggregatePhase::Done {
            outcome: AggregateOutcome::FromCache,
        },
        (AggregatePhase::ReadCache, AggregateEvent::CacheMiss) => if kind.counted() {
            AggregatePhase::Count
        } else {
            AggregatePhase::Compute
        },
        (AggregatePhase::ReadCache, AggregateEvent::CacheFailed) => if kind.counted() {
            AggregatePhase::Count
        } else {
            AggregatePhase::Compute
        },
        (AggregatePhase::Count, AggregateEvent::Counted { count }) => if count == 0 {
            AggregatePhase::Done { outcome: AggregateOutcome::Empty }
        } else {
            AggregatePhase::Compute
        },
        (AggregatePhase::Count, AggregateEvent::CountFailed) => AggregatePhase::Done {
            outcome: AggregateOutcome::Failed { why: AggregateError::CountFailed },
        },
        (AggregatePhase::Compute, AggregateEvent::Computed { rows }) => if rows == 0 {
            AggregatePhase::Done { outcome: AggregateOutcome::Empty }
        } else {
            AggregatePhase::FillCache
        },
        (AggregatePhase::Compute, AggregateEvent::ComputeFailed) => AggregatePhase::Done {
            outcome: AggregateOutcome::Failed { why: AggregateError::ComputeFailed },
        },
        (AggregatePhase::FillCache, AggregateEvent::CacheFilled) => AggregatePhase::Done {
            outcome: AggregateOutcome::Fresh,
        },
        _ => phase,
    }
}

/// The call that is due in `phase` for the list under `key`.
pub open spec fn aggregate_action_in(key: Seq<char>, phase: AggregatePhase) -> AggregateActionView {
    match phase {
        AggregatePhase::ReadCache => AggregateActionView::ReadCache { key },
        AggregatePhase::Count => AggregateActionView::CountEntries,
        AggregatePhase::Compute => AggregateActionView::Compute,
        AggregatePhase::FillCache => AggregateActionView::FillCache {
            key,
            ttl_seconds: AGGREGATE_TTL_SECONDS,
        },
        AggregatePhase::Done { outcome } => AggregateActionView::Finish { outcome },
    }
}

/// One request for a list, on its way.
#[derive(Debug, PartialEq, Eq)]
pub struct CachedQuery {
    pub kind: AggregateKind,
    pub key: String,
    pub phase: AggregatePhase,
}

pub ghost struct CachedQueryView {
    pub kind: AggregateKind,
    pub key: Seq<char>,
    pub phase: AggregatePhase,
}

impl View for CachedQuery {
    type V = CachedQueryView;

    open spec fn view(&self) -> CachedQueryView {
        CachedQueryView { kind: self.kind, key: self.key@, phase: self.phase }
    }
}

impl CachedQuery {
    /// Takes up the request for the home page.
    pub fn home_page() -> (query: CachedQuery)
        ensures
            query@ == (CachedQueryView {
                kind: AggregateKind::HomePage,
                key: home_page_key(),
                phase: AggregatePhase::ReadCache,
            }),
    {
        proof {
            reveal_strlit("");
        }
        assert(""@ =~= Seq::<char>::empty());
        CachedQuery {
            kind: AggregateKind::HomePage,
            key: create_prefixed_key("homepage", ""),
            phase: AggregatePhase::ReadCache,
        }
    }

    /// Takes up the request for the top categories: as many as are asked
    /// for, ten where no number is given.
    pub fn top_categories(asked: Option<usize>) -> (query: CachedQuery)
        ensures
            query@ == (CachedQueryView {
                kind: AggregateKind::TopCategories,
                key: top_categories_key(top_limit(asked) as nat),
                phase: AggregatePhase::ReadCache,
            }),
    {
        let limit = match asked {
            Some(limit) => limit,
            None => DEFAULT_TOP_CATEGORIES,
        };
        let number = decimal(limit);
        CachedQuery {
            kind: AggregateKind::TopCategories,
            key: create_prefixed_key("top_categories", number.as_str()),
            phase: AggregatePhase::ReadCache,
        }
    }

    /// Takes up the request for the items of a category, whose name is
    /// read in lower case.
    pub fn category_items(category: &str) -> (query: CachedQuery)
        ensures
            query@ == (CachedQueryView {
                kind: AggregateKind::CategoryItems,
                key: category_items_key(lowercase_of(category@)),
                phase: AggregatePhase::ReadCache,
            }),
    {
        let name = to_lowercase(category);
        Self::named_category_items(name.as_str())
    }

    /// Takes up the request for the items of the category with this name.
    pub fn named_category_items(name: &str) -> (query: CachedQuery)
        ensures
            query@ == (CachedQueryView {
                kind: AggregateKind::CategoryItems,
                key: category_items_key(name@),
                phase: AggregatePhase::ReadCache,
            }),
    {
        proof {
            reveal_strlit("");
        }
        assert(""@ =~= Seq::<char>::empty());
        let mut prefix = String::from_str("category_items:");
        prefix.append(name);
        CachedQuery {
            kind: AggregateKind::CategoryItems,
            key: create_prefixed_key(prefix.as_str(), ""),
            phase: AggregatePhase::ReadCache,
        }
    }

    /// The call that the service has to make next.
    pub fn pending(&self) -> (action: AggregateAction)
        ensures
            action@ == aggregate_action_in(self.key@, self.phase),
    {
        match self.phase {
            AggregatePhase::ReadCache => AggregateAction::ReadCache { key: self.key.clone() },
            AggregatePhase::Count => AggregateAction::CountEntries,
            AggregatePhase::Compute => AggregateAction::Compute,
            AggregatePhase::FillCache => AggregateAction::FillCache {
                key: self.key.clone(),
                ttl_seconds: AGGREGATE_TTL_SECONDS,
            },
            AggregatePhase::Done { outcome } => AggregateAction::Finish { outcome },
        }
    }

    /// Takes in what came of the pending call.
    pub fn advance(self, event: AggregateEvent) -> (next: CachedQuery)
        ensures
            next@ == (CachedQueryView {
                phase: aggregate_phase_after(self.kind, self.phase, event),
                ..self@
            }),
    {
        let after_miss = if self.kind.is_counted() {
            AggregatePhase::Count
        } else {
            AggregatePhase::Compute
        };
        let phase = match (self.phase, event) {
            (AggregatePhase::ReadCache, AggregateEvent::CacheHit) => AggregatePhase::Done {
                outcome: AggregateOutcome::FromCache,
            },
            (AggregatePhase::ReadCache, AggregateEvent::CacheMiss) => after_miss,
            (AggregatePhase::ReadCache, AggregateEvent::CacheFailed) => after_miss,
            (AggregatePhase::Count, AggregateEvent::Counted { count }) => if count == 0 {
                AggregatePhase::Done { outcome: AggregateOutcome::Empty }
            } else {
                AggregatePhase::Compute
            },
            (AggregatePhase::Count, AggregateEvent::CountFailed) => AggregatePhase::Done {
                outcome: AggregateOutcome::Failed { why: AggregateError::CountFailed },
            },
            (AggregatePhase::Compute, AggregateEvent::Computed { rows }) => if rows == 0 {
                AggregatePhase::Done { outcome: AggregateOutcome::Empty }
            } else {
                AggregatePhase::FillCache
            },
            (AggregatePhase::Compute, AggregateEvent::ComputeFailed) => AggregatePhase::Done {
                outcome: AggregateOutcome::Failed { why: AggregateError::ComputeFailed },
            },
            (AggregatePhase::FillCache, AggregateEvent::CacheFilled) => AggregatePhase::Done {
                outcome: AggregateOutcome::Fresh,
            },
            (phase, _) => phase,
        };
        CachedQuery { kind: self.kind, key: self.key, phase }
    }
}

} // verus!
