//! Putting a new item up for auction.
//!
//! The images are stored first, then the ledger is asked. Once it has taken
//! the request, the item is inserted as pending. After that the hand-over
//! at the end of the auction is scheduled, the item is queued for grading
//! and indexed for the search; none of these three stops the listing when
//! it fails.

use vstd::prelude::*;
use crate::catalog::{Item, ItemStatus, ItemView, Rating};
use crate::errors::ErrorKind;
use crate::lifecycle::{refusal_of, LifecycleError, LifecycleErrorView};
use crate::text::{copy_text, copy_texts, lowercase_of, to_lowercase};
use crate::types::rate_queue_name;
use crate::upstream::{judge, judged, LedgerAnswer, LedgerVerdict, LedgerVerdictView};

verus! {

/// Draws a random identifier with `Uuid::new_v4` of the uuid crate and
/// renders it with its `Display`, in the hyphenated form: 36 characters,
/// hexadecimal digits and hyphens. Which ones they are is not said. The
/// call panics where the operating system gives no random bytes.
#[verifier::external_body]
fn fresh_uuid_text() -> (text: String)
    ensures
        text@.len() == 36,
        text.is_ascii(),
{
    uuid::Uuid::new_v4().to_string()
}

/// Number of characters of the identifier of an item.
pub const ITEM_ID_LENGTH: usize = 16;

/// The first sixteen characters of `text`, or all of it if it is shorter.
pub open spec fn shortened(text: Seq<char>) -> Seq<char> {
    if text.len() <= ITEM_ID_LENGTH {
        text
    } else {
        text.subrange(0, ITEM_ID_LENGTH as int)
    }
}

/// Cuts a text down to the length of an item identifier.
pub fn short_id(text: &str) -> (id: String)
    ensures
        id@ == shortened(text@),
{
    let n: usize = text.unicode_len();
    if n <= ITEM_ID_LENGTH {
        String::from_str(text)
    } else {
        String::from_str(text.substring_char(0, ITEM_ID_LENGTH))
    }
}

/// A new identifier for an item.
pub fn new_item_id() -> (id: String)
    ensures
        id@.len() == ITEM_ID_LENGTH,
{
    let drawn = fresh_uuid_text();
    short_id(drawn.as_str())
}

/// The time, in milliseconds since the epoch, at which an auction ends that
/// starts at `now` and runs for `seconds`; `None` where no time can hold it.
pub open spec fn ends_at(now: i64, seconds: i64) -> Option<i64> {
    if i64::MIN <= now + seconds * 1000 <= i64::MAX {
        Some((now + seconds * 1000) as i64)
    } else {
        None
    }
}

/// The end of an auction that starts at `now` and runs for `seconds`.
pub fn auction_end_at(now: i64, seconds: i64) -> (end: Option<i64>)
    ensures
        end == ends_at(now, seconds),
{
    let total: i128 = now as i128 + seconds as i128 * 1000;
    if total > i64::MAX as i128 || total < i64::MIN as i128 {
        None
    } else {
        Some(total as i64)
    }
}

/// The time from `now` to `auction_end` in milliseconds, held to what a
/// time span can hold.
pub open spec fn span_until(auction_end: i64, now: i64) -> i64 {
    if auction_end - now > i64::MAX {
        i64::MAX
    } else if auction_end - now < i64::MIN {
        i64::MIN
    } else {
        (auction_end - now) as i64
    }
}

/// The time that is left until the auction ends.
pub fn delay_until(auction_end: i64, now: i64) -> (delay: i64)
    ensures
        delay == span_until(auction_end, now),
{
    match auction_end.checked_sub(now) {
        Some(delay) => delay,
        None => if auction_end >= 0 {
            i64::MAX
        } else {
            i64::MIN
        },
    }
}

/// What a seller says of a new item.
#[derive(Debug, PartialEq, Eq)]
pub struct ItemDetails {
    pub title: String,
    pub description: String,
    /// The images, each inline, as a web address or as a path.
    pub images: Vec<String>,
    pub category: String,
    pub base_price: i64,
}

/// The request to put an item up for auction.
#[derive(Debug, PartialEq, Eq)]
pub struct CreateItemRequest {
    pub item_details: ItemDetails,
    pub seller: String,
    /// How long the auction runs, in seconds.
    pub auction_end: i64,
}

/// The item of a request as it is inserted: pending, not yet graded, its
/// category in lower case, its images where they were stored.
pub open spec fn listed(
    item_id: Seq<char>,
    title: Seq<char>,
    description: Seq<char>,
    images: Seq<Seq<char>>,
    category: Seq<char>,
    auction_end: i64,
    base_price: i64,
) -> ItemView {
    ItemView {
        id: Some(item_id),
        title,
        description,
        images,
        category: lowercase_of(category),
        auction_end,
        rating: Rating::PENDING,
        status: ItemStatus::PENDING,
        base_price,
    }
}

/// The item as it is inserted, given its category in lower case.
pub fn pending_item(
    item_id: &str,
    title: &str,
    description: &str,
    images: &Vec<String>,
    lowered_category: String,
    auction_end: i64,
    base_price: i64,
) -> (item: Item)
    ensures
        item@ == (ItemView {
            id: Some(item_id@),
            title: title@,
            description: description@,
            images: images.deep_view(),
            category: lowered_category@,
            auction_end,
            rating: Rating::PENDING,
            status: ItemStatus::PENDING,
            base_price,
        }),
{
    Item {
        id: Some(String::from_str(item_id)),
        title: String::from_str(title),
        description: String::from_str(description),
        images: copy_texts(images),
        category: lowered_category,
        auction_end,
        rating: Rating::PENDING,
        status: ItemStatus::PENDING,
        base_price,
    }
}

/// Why an item was not listed.
#[derive(Debug, PartialEq, Eq)]
pub enum ListingError {
    /// An image could not be stored.
    UploadFailed { message: String },
    /// The ledger let the request down.
    Failed { why: LifecycleError },
    /// The item could not be inserted.
    InsertFailed { detail: String },
}

pub ghost enum ListingErrorView {
    UploadFailed { message: Seq<char> },
    Failed { why: LifecycleErrorView },
    InsertFailed { detail: Seq<char> },
}

impl View for ListingError {
    type V = ListingErrorView;

    open spec fn view(&self) -> ListingErrorView {
        match self {
            ListingError::UploadFailed { message } => ListingErrorView::UploadFailed {
                message: message@,
            },
            ListingError::Failed { why } => ListingErrorView::Failed { why: why@ },
            ListingError::InsertFailed { detail } => ListingErrorView::InsertFailed {
                detail: detail@,
            },
        }
    }
}

impl DeepView for ListingError {
    type V = ListingErrorView;

    open spec fn deep_view(&self) -> ListingErrorView {
        self@
    }
}

impl ListingErrorView {
    pub open spec fn kind_of(self) -> ErrorKind {
        match self {
            ListingErrorView::UploadFailed { .. } => ErrorKind::UpstreamFailure,
            ListingErrorView::Failed { why } => why.kind_of(),
            ListingErrorView::InsertFailed { .. } => ErrorKind::StoreFailure,
        }
    }
}

impl Clone for ListingError {
    fn clone(&self) -> (copy: Self)
        ensures
            copy@ == self@,
    {
        match self {
            ListingError::UploadFailed { message } => ListingError::UploadFailed {
                message: message.clone(),
            },
            ListingError::Failed { why } => ListingError::Failed { why: why.clone() },
            ListingError::InsertFailed { detail } => ListingError::InsertFailed {
                detail: detail.clone(),
            },
        }
    }
}

impl ListingError {
    pub fn kind(&self) -> (kind: ErrorKind)
        ensures
            kind == self@.kind_of(),
    {
        match self {
            ListingError::UploadFailed { .. } => ErrorKind::UpstreamFailure,
            ListingError::Failed { why } => why.kind(),
            ListingError::InsertFailed { .. } => ErrorKind::StoreFailure,
        }
    }
}

/// How far a listing has come.
#[derive(Clone, Copy, Debug, PartialEq, Eq)]
pub enum ListingPhase {
    /// The images are being stored.
    StoreImages,
    /// The ledger is being asked.
    AskLedger,
    /// The item is being inserted.
    InsertItem,
    /// The hand-over at the end of the auction is being scheduled.
    Schedule,
    /// The item is being queued for grading.
    Enqueue,
    /// The item is being indexed for the search.
    Index,
    /// Nothing is left to do.
    Done,
}

/// What came of the call that the flow asked for.
#[derive(Debug, PartialEq, Eq)]
pub enum ListingEvent {
    /// The addresses of the stored images, in the order of the images.
    ImagesStored { urls: Vec<String> },
    ImagesFailed { message: String },
    Ledger { answer: LedgerAnswer },
    ItemInserted,
    ItemInsertFailed { detail: String },
    /// The collaborator was told.
    Notified,
    /// The collaborator could not be told.
    NotifyFailed,
}

pub ghost enum ListingEventView {
    ImagesStored { urls: Seq<Seq<char>> },
    ImagesFailed { message: Seq<char> },
    Ledger { verdict: LedgerVerdictView },
    ItemInserted,
    ItemInsertFailed { detail: Seq<char> },
    Notified,
    NotifyFailed,
}

impl View for ListingEvent {
    type V = ListingEventView;

    open spec fn view(&self) -> ListingEventView {
        match self {
            ListingEvent::ImagesStored { urls } => ListingEventView::ImagesStored {
                urls: urls.deep_view(),
            },
            ListingEvent::ImagesFailed { message } => ListingEventView::ImagesFailed {
                message: message@,
            },
            ListingEvent::Ledger { answer } => ListingEventView::Ledger { verdict: judged(*answer) },
            ListingEvent::ItemInserted => ListingEventView::ItemInserted,
            ListingEvent::ItemInsertFailed { detail } => ListingEventView::ItemInsertFailed {
                detail: detail@,
            },
            ListingEvent::Notified => ListingEventView::Notified,
            ListingEvent::NotifyFailed => ListingEventView::NotifyFailed,
        }
    }
}

/// The call that the service has to make next.
#[derive(Debug, PartialEq, Eq)]
pub enum ListingAction {
    /// Store the images of the item.
    StoreImages { item_id: String, images: Vec<String> },
    /// Ask the ledger to list the item for its seller.
    RequestListing { item_id: String, seller: String },
    /// Insert the item into the store.
    InsertItem { item: Item },
    /// Have the item handed over when its auction has ended.
    ScheduleTransfer { item_id: String, item_name: String, auction_end: i64, seller: String },
    /// Put the item on the queue of items to grade.
    EnqueueRating { queue: String, item_id: String },
    /// Have the item indexed for the search.
    IndexItem { item_id: String, item_name: String, category: String },
    /// Answer the request.
    Finish { outcome: Result<Option<String>, ListingError> },
}

pub ghost enum ListingActionView {
    StoreImages { item_id: Seq<char>, images: Seq<Seq<char>> },
    RequestListing { item_id: Seq<char>, seller: Seq<char> },
    InsertItem { item: ItemView },
    ScheduleTransfer {
        item_id: Seq<char>,
        item_name: Seq<char>,
        auction_end: i64,
        seller: Seq<char>,
    },
    EnqueueRating { queue: Seq<char>, item_id: Seq<char> },
    IndexItem { item_id: Seq<char>, item_name: Seq<char>, category: Seq<char> },
    Finish { outcome: Result<Option<Seq<char>>, ListingErrorView> },
}

impl View for ListingAction {
    type V = ListingActionView;

    open spec fn view(&self) -> ListingActionView {
        match self {
            ListingAction::StoreImages { item_id, images } => ListingActionView::StoreImages {
                item_id: item_id@,
                images: images.deep_view(),
            },
            ListingAction::RequestListing { item_id, seller } => ListingActionView::RequestListing {
                item_id: item_id@,
                seller: seller@,
            },
            ListingAction::InsertItem { item } => ListingActionView::InsertItem { item: item@ },
            ListingAction::ScheduleTransfer {
                item_id,
                item_name,
                auction_end,
                seller,
            } => ListingActionView::ScheduleTransfer {
                item_id: item_id@,
                item_name: item_name@,
                auction_end: *auction_end,
                seller: seller@,
            },
            ListingAction::EnqueueRating { queue, item_id } => ListingActionView::EnqueueRating {
                queue: queue@,
                item_id: item_id@,
            },
            ListingAction::IndexItem { item_id, item_name, category } => ListingActionView::IndexItem {
                item_id: item_id@,
                item_name: item_name@,
                category: category@,
            },
            ListingAction::Finish { outcome } => ListingActionView::Finish {
                outcome: match outcome {
                    Ok(operation_id) => Ok(operation_id.deep_view()),
                    Err(why) => Err(why@),
                },
            },
        }
    }
}

/// One listing, on its way.
#[derive(Debug, PartialEq, Eq)]
pub struct ListingFlow {
    pub item_id: String,
    pub seller: String,
    pub title: String,
    pub description: String,
    /// The images as the seller gave them.
    pub images: Vec<String>,
    pub category: String,
    pub base_price: i64,
    /// End of the auction, in milliseconds since the epoch.
    pub auction_end: i64,
    pub phase: ListingPhase,
    /// Where the images were stored.
    pub urls: Vec<String>,
    /// The operation that the ledger started, once it took the request.
    pub operation_id: Option<String>,
    /// Why the item was not listed, if so.
    pub failure: Option<ListingError>,
}

pub ghost struct ListingFlowView {
    pub item_id: Seq<char>,
    pub seller: Seq<char>,
    pub title: Seq<char>,
    pub description: Seq<char>,
    pub images: Seq<Seq<char>>,
    pub category: Seq<char>,
    pub base_price: i64,
    pub auction_end: i64,
    pub phase: ListingPhase,
    pub urls: Seq<Seq<char>>,
    pub operation_id: Option<Seq<char>>,
    pub failure: Option<ListingErrorView>,
}

impl View for ListingFlow {
    type V = ListingFlowView;

    open spec fn view(&self) -> ListingFlowView {
        ListingFlowView {
            item_id: self.item_id@,
            seller: self.seller@,
            title: self.title@,
            description: self.description@,
            images: self.images.deep_view(),
            category: self.category@,
            base_price: self.base_price,
            auction_end: self.auction_end,
            phase: self.phase,
            urls: self.urls.deep_view(),
            operation_id: self.operation_id.deep_view(),
            failure: self.failure.deep_view(),
        }
    }
}

impl ListingFlowView {
    /// What the request comes to: the operation that the ledger started, or
    /// the reason why the item was not listed.
    pub open spec fn outcome(self) -> Result<Option<Seq<char>>, ListingErrorView> {
        match self.failure {
            Some(why) => Err(why),
            None => Ok(self.operation_id),
        }
    }

    /// The flow, ended for this reason.
    pub open spec fn failed(self, why: ListingErrorView) -> ListingFlowView {
        ListingFlowView { phase: ListingPhase::Done, failure: Some(why), ..self }
    }

    /// The flow in another phase.
    pub open spec fn moved(self, phase: ListingPhase) -> ListingFlowView {
        ListingFlowView { phase, ..self }
    }

    /// The call that is due.
    pub open spec fn pending(self) -> ListingActionView {
        match self.phase {
            ListingPhase::StoreImages => ListingActionView::StoreImages {
                item_id: self.item_id,
                images: self.images,
            },
            ListingPhase::AskLedger => ListingActionView::RequestListing {
                item_id: self.item_id,
                seller: self.seller,
            },
            ListingPhase::InsertItem => ListingActionView::InsertItem {
                item: listed(
                    self.item_id,
                    self.title,
                    self.description,
                    self.urls,
                    self.category,
                    self.auction_end,
                    self.base_price,
                ),
            },
            ListingPhase::Schedule => ListingActionView::ScheduleTransfer {
                item_id: self.item_id,
                item_name: self.title,
                auction_end: self.auction_end,
                seller: self.seller,
            },
            ListingPhase::Enqueue => ListingActionView::EnqueueRating {
                queue: rate_queue_name(),
                item_id: self.item_id,
            },
            ListingPhase::Index => ListingActionView::IndexItem {
                item_id: self.item_id,
                item_name: self.title,
                category: self.category,
            },
            ListingPhase::Done => ListingActionView::Finish { outcome: self.outcome() },
        }
    }

    /// The flow after `event`. An event that does not answer the pending
    /// call leaves the flow as it is.
    pub open spec fn after(self, event: ListingEventView) -> ListingFlowView {
        match (self.phase, event) {
            (ListingPhase::StoreImages, ListingEventView::ImagesStored { urls }) => ListingFlowView {
                phase: ListingPhase::AskLedger,
                urls,
                ..self
            },
            (ListingPhase::StoreImages, ListingEventView::ImagesFailed { message }) => self.failed(
                ListingErrorView::UploadFailed { message },
            ),
            (ListingPhase::AskLedger, ListingEventView::Ledger { verdict }) => match verdict {
                LedgerVerdictView::Pending { operation_id } => ListingFlowView {
                    phase: ListingPhase::InsertItem,
                    operation_id,
                    ..self
                },
                _ => self.failed(ListingErrorView::Failed { why: refusal_of(verdict)->0 }),
            },
            (ListingPhase::InsertItem, ListingEventView::ItemInserted) => self.moved(
                ListingPhase::Schedule,
            ),
            (ListingPhase::InsertItem, ListingEventView::ItemInsertFailed { detail }) => self.failed(
                ListingErrorView::InsertFailed { detail },
            ),
            (ListingPhase::Schedule, ListingEventView::Notified) => self.moved(ListingPhase::Enqueue),
            (ListingPhase::Schedule, ListingEventView::NotifyFailed) => self.moved(
                ListingPhase::Enqueue,
            ),
            (ListingPhase::Enqueue, ListingEventView::Notified) => self.moved(ListingPhase::Index),
            (ListingPhase::Enqueue, ListingEventView::NotifyFailed) => self.moved(
                ListingPhase::Index,
            ),
            (ListingPhase::Index, ListingEventView::Notified) => self.moved(ListingPhase::Done),
            (ListingPhase::Index, ListingEventView::NotifyFailed) => self.moved(ListingPhase::Done),
            _ => self,
        }
    }
}

/// Each step of a listing follows from the one before it alone: the ledger
/// is asked only after the images were stored, the item is inserted only
/// after the ledger answered pending, and the collaborators are told only
/// after the item was inserted, whether or not the one before could be
/// told. A listing ends badly only where the images, the ledger or the
/// insertion failed. A listing that has ended stays as it is.
pub proof fn lemma_order_of_a_listing(flow: ListingFlowView, event: ListingEventView)
    ensures
        flow.after(event).phase is AskLedger && !(flow.phase is AskLedger) ==> flow.phase
            is StoreImages && event is ImagesStored,
        flow.after(event).phase is InsertItem && !(flow.phase is InsertItem) ==> flow.phase
            is AskLedger && (match event {
            ListingEventView::Ledger { verdict } => verdict is Pending,
            _ => false,
        }),
        flow.after(event).phase is Schedule && !(flow.phase is Schedule) ==> flow.phase
            is InsertItem && event is ItemInserted,
        flow.after(event).phase is Enqueue && !(flow.phase is Enqueue) ==> flow.phase is Schedule,
        flow.after(event).phase is Index && !(flow.phase is Index) ==> flow.phase is Enqueue,
        flow.after(event).phase is Done && flow.phase is Index ==> flow.after(event).failure
            == flow.failure,
        flow.after(event).phase is Done && !(flow.phase is Done) && !(flow.phase is Index)
            ==> flow.after(event).outcome() is Err && (flow.phase is StoreImages || flow.phase
            is AskLedger || flow.phase is InsertItem),
        flow.phase is Done ==> flow.after(event) == flow,
{
}

impl ListingFlow {
    /// Takes up the listing of the item of `request` under `item_id`, its
    /// auction to end at `auction_end`.
    pub fn open(request: &CreateItemRequest, item_id: &str, auction_end: i64) -> (flow: ListingFlow)
        ensures
            flow@ == (ListingFlowView {
                item_id: item_id@,
                seller: request.seller@,
                title: request.item_details.title@,
                description: request.item_details.description@,
                images: request.item_details.images.deep_view(),
                category: request.item_details.category@,
                base_price: request.item_details.base_price,
                auction_end,
                phase: ListingPhase::StoreImages,
                urls: Seq::empty(),
                operation_id: None,
                failure: None,
            }),
    {
        let flow = ListingFlow {
            item_id: String::from_str(item_id),
            seller: request.seller.clone(),
            title: request.item_details.title.clone(),
            description: request.item_details.description.clone(),
            images: copy_texts(&request.item_details.images),
            category: request.item_details.category.clone(),
            base_price: request.item_details.base_price,
            auction_end,
            phase: ListingPhase::StoreImages,
            urls: Vec::new(),
            operation_id: None,
            failure: None,
        };
        assert(flow.urls.deep_view() =~= Seq::<Seq<char>>::empty());
        flow
    }

    /// What the request comes to.
    pub fn outcome(&self) -> (result: Result<Option<String>, ListingError>)
        ensures
            match (result, self@.outcome()) {
                (Ok(operation_id), Ok(expected)) => operation_id.deep_view() == expected,
                (Err(why), Err(expected)) => why@ == expected,
                _ => false,
            },
    {
        match &self.failure {
            Some(why) => Err(why.clone()),
            None => Ok(copy_text(&self.operation_id)),
        }
    }

    /// The call that the service has to make next.
    pub fn pending(&self) -> (action: ListingAction)
        ensures
            action@ == self@.pending(),
    {
        match self.phase {
            ListingPhase::StoreImages => ListingAction::StoreImages {
                item_id: self.item_id.clone(),
                images: copy_texts(&self.images),
            },
            ListingPhase::AskLedger => ListingAction::RequestListing {
                item_id: self.item_id.clone(),
                seller: self.seller.clone(),
            },
            ListingPhase::InsertItem => ListingAction::InsertItem {
                item: pending_item(
                    self.item_id.as_str(),
                    self.title.as_str(),
                    self.description.as_str(),
                    &self.urls,
                    to_lowercase(self.category.as_str()),
                    self.auction_end,
                    self.base_price,
                ),
            },
            ListingPhase::Schedule => ListingAction::ScheduleTransfer {
                item_id: self.item_id.clone(),
                item_name: self.title.clone(),
                auction_end: self.auction_end,
                seller: self.seller.clone(),
            },
            ListingPhase::Enqueue => ListingAction::EnqueueRating {
                queue: crate::types::rate_queue(),
                item_id: self.item_id.clone(),
            },
            ListingPhase::Index => ListingAction::IndexItem {
                item_id: self.item_id.clone(),
                item_name: self.title.clone(),
                category: self.category.clone(),
            },
            ListingPhase::Done => ListingAction::Finish { outcome: self.outcome() },
        }
    }

    fn fail(self, why: ListingError) -> (next: ListingFlow)
        ensures
            next@ == self@.failed(why@),
    {
        let mut flow = self;
        flow.phase = ListingPhase::Done;
        flow.failure = Some(why);
        flow
    }

    fn move_to(self, phase: ListingPhase) -> (next: ListingFlow)
        ensures
            next@ == self@.moved(phase),
    {
        let mut flow = self;
        flow.phase = phase;
        flow
    }

    /// Takes in what came of the pending call.
    pub fn advance(self, event: ListingEvent) -> (next: ListingFlow)
        ensures
            next@ == self@.after(event@),
    {
        let mut flow = self;
        match (flow.phase, event) {
            (ListingPhase::StoreImages, ListingEvent::ImagesStored { urls }) => {
                flow.phase = ListingPhase::AskLedger;
                flow.urls = urls;
                flow
            },
            (ListingPhase::StoreImages, ListingEvent::ImagesFailed { message }) => flow.fail(
                ListingError::UploadFailed { message },
            ),
            (ListingPhase::AskLedger, ListingEvent::Ledger { answer }) => {
                match judge(answer) {
                    LedgerVerdict::Pending { operation_id } => {
                        flow.phase = ListingPhase::InsertItem;
                        flow.operation_id = operation_id;
                        flow
                    },
                    LedgerVerdict::Rejected { message } => flow.fail(
                        ListingError::Failed { why: LifecycleError::Rejected { message } },
                    ),
                    LedgerVerdict::Unexpected => flow.fail(
                        ListingError::Failed { why: LifecycleError::UnexpectedReply },
                    ),
                    LedgerVerdict::Unreachable => flow.fail(
                        ListingError::Failed { why: LifecycleError::LedgerUnreachable },
                    ),
                    LedgerVerdict::Unreadable => flow.fail(
                        ListingError::Failed { why: LifecycleError::LedgerUnreadable },
                    ),
                }
            },
            (ListingPhase::InsertItem, ListingEvent::ItemInserted) => flow.move_to(
                ListingPhase::Schedule,
            ),
            (ListingPhase::InsertItem, ListingEvent::ItemInsertFailed { detail }) => flow.fail(
                ListingError::InsertFailed { detail },
            ),
            (ListingPhase::Schedule, ListingEvent::Notified) => flow.move_to(ListingPhase::Enqueue),
            (ListingPhase::Schedule, ListingEvent::NotifyFailed) => flow.move_to(
                ListingPhase::Enqueue,
            ),
            (ListingPhase::Enqueue, ListingEvent::Notified) => flow.move_to(ListingPhase::Index),
            (ListingPhase::Enqueue, ListingEvent::NotifyFailed) => flow.move_to(ListingPhase::Index),
            (ListingPhase::Index, ListingEvent::Notified) => flow.move_to(ListingPhase::Done),
            (ListingPhase::Index, ListingEvent::NotifyFailed) => flow.move_to(ListingPhase::Done),
            _ => flow,
        }
    }

    /// Whether nothing is left to do.
    pub fn is_done(&self) -> (done: bool)
        ensures
            done == (self@.phase is Done),
    {
        match self.phase {
            ListingPhase::Done => true,
            _ => false,
        }
    }
}

} // verus!
