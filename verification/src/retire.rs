//! Taking an item out of circulation: the references that other items hold
//! to it are removed from their similar-items lists, then its own list and
//! its cached detail record are deleted.
//!
//! The clean-up is a fan-out over independent cache entries. A step that
//! fails is noted in the report and the remaining steps are still made.

use vstd::prelude::*;
use crate::keys::{details_key, item_details_key, similar_items_key, similar_key};
use crate::similar::{decode_similar, encode_similar, ids_of, joined, remove_id, without};

verus! {

/// How far the clean-up has come.
#[derive(Clone, Copy, Debug, PartialEq, Eq)]
pub enum RetirePhase {
    /// The list of the retiring item is being read.
    ReadOwn,
    /// The list of the member at this position is being read.
    ReadMember { at: usize },
    /// The shortened list of the member at this position is being written.
    WriteMember { at: usize },
    /// The list of the retiring item is being deleted.
    DropOwnList,
    /// The cached detail record of the retiring item is being deleted.
    DropDetails,
    /// Nothing is left to do.
    Finished,
}

/// What came of the call that the flow asked for.
#[derive(Debug, PartialEq, Eq)]
pub enum RetireEvent {
    /// The entry exists and holds this text.
    Found { text: String },
    /// The entry does not exist.
    Absent,
    /// The entry could not be read.
    ReadFailed,
    /// The entry was written or deleted.
    Stored,
    /// The entry could not be written or deleted.
    StoreFailed,
}

pub ghost enum RetireEventView {
    Found { text: Seq<char> },
    Absent,
    ReadFailed,
    Stored,
    StoreFailed,
}

impl View for RetireEvent {
    type V = RetireEventView;

    open spec fn view(&self) -> RetireEventView {
        match self {
            RetireEvent::Found { text } => RetireEventView::Found { text: text@ },
            RetireEvent::Absent => RetireEventView::Absent,
            RetireEvent::ReadFailed => RetireEventView::ReadFailed,
            RetireEvent::Stored => RetireEventView::Stored,
            RetireEvent::StoreFailed => RetireEventView::StoreFailed,
        }
    }
}

/// The call on the cache that the service has to make next.
#[derive(Debug, PartialEq, Eq)]
pub enum RetireAction {
    Get { key: String },
    Put { key: String, value: String },
    Delete { key: String },
    Finish,
}

pub ghost enum RetireActionView {
    Get { key: Seq<char> },
    Put { key: Seq<char>, value: Seq<char> },
    Delete { key: Seq<char> },
    Finish,
}

impl View for RetireAction {
    type V = RetireActionView;

    open spec fn view(&self) -> RetireActionView {
        match self {
            RetireAction::Get { key } => RetireActionView::Get { key: key@ },
            RetireAction::Put { key, value } => RetireActionView::Put { key: key@, value: value@ },
            RetireAction::Delete { key } => RetireActionView::Delete { key: key@ },
            RetireAction::Finish => RetireActionView::Finish,
        }
    }
}

/// The clean-up of one retiring item, on its way.
#[derive(Debug, PartialEq, Eq)]
pub struct RetireFlow {
    pub item_id: String,
    /// The items that the retiring item lists, once its list was read.
    pub members: Vec<String>,
    /// The list that is being written back to the member at hand.
    pub shortened: Vec<String>,
    pub phase: RetirePhase,
    /// Whether the list of the retiring item could not be read.
    pub own_list_unread: bool,
    /// The members whose lists could not be read or written.
    pub failed_members: Vec<String>,
    /// Whether the list of the retiring item could not be deleted.
    pub own_list_left: bool,
    /// Whether the detail record of the retiring item could not be deleted.
    pub details_left: bool,
}

pub ghost struct RetireFlowView {
    pub item_id: Seq<char>,
    pub members: Seq<Seq<char>>,
    pub shortened: Seq<Seq<char>>,
    pub phase: RetirePhase,
    pub own_list_unread: bool,
    pub failed_members: Seq<Seq<char>>,
    pub own_list_left: bool,
    pub details_left: bool,
}

impl View for RetireFlow {
    type V = RetireFlowView;

    open spec fn view(&self) -> RetireFlowView {
        RetireFlowView {
            item_id: self.item_id@,
            members: self.members.deep_view(),
            shortened: self.shortened.deep_view(),
            phase: self.phase,
            own_list_unread: self.own_list_unread,
            failed_members: self.failed_members.deep_view(),
            own_list_left: self.own_list_left,
            details_left: self.details_left,
        }
    }
}

impl RetireFlowView {
    /// A member is at hand only while there is one at that position.
    pub open spec fn wf(self) -> bool {
        match self.phase {
            RetirePhase::ReadMember { at } => at < self.members.len(),
            RetirePhase::WriteMember { at } => at < self.members.len(),
            _ => true,
        }
    }

    /// The flow at the start of the clean-up for `item_id`.
    pub open spec fn start(item_id: Seq<char>) -> RetireFlowView {
        RetireFlowView {
            item_id,
            members: Seq::empty(),
            shortened: Seq::empty(),
            phase: RetirePhase::ReadOwn,
            own_list_unread: false,
            failed_members: Seq::empty(),
            own_list_left: false,
            details_left: false,
        }
    }

    /// The phase that takes up the member at position `at`, or goes on to
    /// the own entries when the members are done.
    pub open spec fn turn_to(self, at: int) -> RetirePhase {
        if 0 <= at < self.members.len() {
            RetirePhase::ReadMember { at: at as usize }
        } else {
            RetirePhase::DropOwnList
        }
    }

    /// The call that is due.
    pub open spec fn pending(self) -> RetireActionView {
        match self.phase {
            RetirePhase::ReadOwn => RetireActionView::Get { key: similar_key(self.item_id) },
            RetirePhase::ReadMember { at } => RetireActionView::Get {
                key: similar_key(self.members[at as int]),
            },
            RetirePhase::WriteMember { at } => if self.shortened.len() == 0 {
                RetireActionView::Delete { key: similar_key(self.members[at as int]) }
            } else {
                RetireActionView::Put {
                    key: similar_key(self.members[at as int]),
                    value: joined(self.shortened),
                }
            },
            RetirePhase::DropOwnList => RetireActionView::Delete { key: similar_key(self.item_id) },
            RetirePhase::DropDetails => RetireActionView::Delete { key: details_key(self.item_id) },
            RetirePhase::Finished => RetireActionView::Finish,
        }
    }

    /// The flow after `event`. An event that does not answer the pending
    /// call leaves the flow as it is.
    pub open spec fn after(self, event: RetireEventView) -> RetireFlowView {
        match (self.phase, event) {
            (RetirePhase::ReadOwn, RetireEventView::Found { text }) => {
                let listed = RetireFlowView { members: ids_of(text), ..self };
                RetireFlowView { phase: listed.turn_to(0), ..listed }
            },
            (RetirePhase::ReadOwn, RetireEventView::Absent) => RetireFlowView {
                phase: RetirePhase::DropOwnList,
                ..self
            },
            (RetirePhase::ReadOwn, RetireEventView::ReadFailed) => RetireFlowView {
                phase: RetirePhase::DropOwnList,
                own_list_unread: true,
                ..self
            },
            (RetirePhase::ReadMember { at }, RetireEventView::Found { text }) => RetireFlowView {
                phase: RetirePhase::WriteMember { at },
                shortened: without(ids_of(text), self.item_id),
                ..self
            },
            (RetirePhase::ReadMember { at }, RetireEventView::Absent) => RetireFlowView {
                phase: self.turn_to(at + 1),
                ..self
            },
            (RetirePhase::ReadMember { at }, RetireEventView::ReadFailed) => RetireFlowView {
                phase: self.turn_to(at + 1),
                failed_members: self.failed_members.push(self.members[at as int]),
                ..self
            },
            (RetirePhase::WriteMember { at }, RetireEventView::Stored) => RetireFlowView {
                phase: self.turn_to(at + 1),
                ..self
            },
            (RetirePhase::WriteMember { at }, RetireEventView::StoreFailed) => RetireFlowView {
                phase: self.turn_to(at + 1),
                failed_members: self.failed_members.push(self.members[at as int]),
                ..self
            },
            (RetirePhase::DropOwnList, RetireEventView::Stored) => RetireFlowView {
                phase: RetirePhase::DropDetails,
                ..self
            },
            (RetirePhase::DropOwnList, RetireEventView::StoreFailed) => RetireFlowView {
                phase: RetirePhase::DropDetails,
                own_list_left: true,
                ..self
            },
            (RetirePhase::DropDetails, RetireEventView::Stored) => RetireFlowView {
                phase: RetirePhase::Finished,
                ..self
            },
            (RetirePhase::DropDetails, RetireEventView::StoreFailed) => RetireFlowView {
                phase: RetirePhase::Finished,
                details_left: true,
                ..self
            },
            _ => self,
        }
    }

    /// Whether nothing is left to do.
    pub open spec fn finished(self) -> bool {
        self.phase is Finished
    }

    /// Whether every step so far was made.
    pub open spec fn clean(self) -> bool {
        !self.own_list_unread && self.failed_members.len() == 0 && !self.own_list_left
            && !self.details_left
    }
}

impl RetireFlow {
    /// Takes up the clean-up for `item_id`.
    pub fn open(item_id: &str) -> (flow: RetireFlow)
        ensures
            flow@ == RetireFlowView::start(item_id@),
            flow@.wf(),
    {
        let flow = RetireFlow {
            item_id: String::from_str(item_id),
            members: Vec::new(),
            shortened: Vec::new(),
            phase: RetirePhase::ReadOwn,
            own_list_unread: false,
            failed_members: Vec::new(),
            own_list_left: false,
            details_left: false,
        };
        assert(flow.members.deep_view() =~= Seq::<Seq<char>>::empty());
        assert(flow.shortened.deep_view() =~= Seq::<Seq<char>>::empty());
        assert(flow.failed_members.deep_view() =~= Seq::<Seq<char>>::empty());
        flow
    }

    /// The call that the service has to make next.
    pub fn pending(&self) -> (action: RetireAction)
        requires
            self@.wf(),
        ensures
            action@ == self@.pending(),
    {
        match self.phase {
            RetirePhase::ReadOwn => RetireAction::Get {
                key: similar_items_key(self.item_id.as_str()),
            },
            RetirePhase::ReadMember { at } => RetireAction::Get {
                key: similar_items_key(self.members[at].as_str()),
            },
            RetirePhase::WriteMember { at } => {
                if self.shortened.len() == 0 {
                    RetireAction::Delete { key: similar_items_key(self.members[at].as_str()) }
                } else {
                    RetireAction::Put {
                        key: similar_items_key(self.members[at].as_str()),
                        value: encode_similar(&self.shortened),
                    }
                }
            },
            RetirePhase::DropOwnList => RetireAction::Delete {
                key: similar_items_key(self.item_id.as_str()),
            },
            RetirePhase::DropDetails => RetireAction::Delete {
                key: item_details_key(self.item_id.as_str()),
            },
            RetirePhase::Finished => RetireAction::Finish,
        }
    }

    fn turn_to(&self, at: usize) -> (phase: RetirePhase)
        ensures
            phase == self@.turn_to(at as int),
    {
        if at < self.members.len() {
            RetirePhase::ReadMember { at }
        } else {
            RetirePhase::DropOwnList
        }
    }

    /// Takes in what came of the pending call.
    pub fn advance(self, event: RetireEvent) -> (next: RetireFlow)
        requires
            self@.wf(),
        ensures
            next@ == self@.after(event@),
            next@.wf(),
    {
        assert(self@.members.len() == self.members.len());
        let mut flow = self;
        match (flow.phase, event) {
            (RetirePhase::ReadOwn, RetireEvent::Found { text }) => {
                flow.members = decode_similar(text.as_str());
                flow.phase = flow.turn_to(0);
            },
            (RetirePhase::ReadOwn, RetireEvent::Absent) => {
                flow.phase = RetirePhase::DropOwnList;
            },
            (RetirePhase::ReadOwn, RetireEvent::ReadFailed) => {
                flow.phase = RetirePhase::DropOwnList;
                flow.own_list_unread = true;
            },
            (RetirePhase::ReadMember { at }, RetireEvent::Found { text }) => {
                let listed = decode_similar(text.as_str());
                flow.shortened = remove_id(&listed, flow.item_id.as_str());
                flow.phase = RetirePhase::WriteMember { at };
            },
            (RetirePhase::ReadMember { at }, RetireEvent::Absent) => {
                flow.phase = flow.turn_to(at + 1);
            },
            (RetirePhase::ReadMember { at }, RetireEvent::ReadFailed) => {
                let ghost before = flow.failed_members.deep_view();
                let member = flow.members[at].clone();
                flow.failed_members.push(member);
                assert(flow.failed_members.deep_view() =~= before.push(flow.members[at as int]@));
                flow.phase = flow.turn_to(at + 1);
            },
            (RetirePhase::WriteMember { at }, RetireEvent::Stored) => {
                flow.phase = flow.turn_to(at + 1);
            },
            (RetirePhase::WriteMember { at }, RetireEvent::StoreFailed) => {
                let ghost before = flow.failed_members.deep_view();
                let member = flow.members[at].clone();
                flow.failed_members.push(member);
                assert(flow.failed_members.deep_view() =~= before.push(flow.members[at as int]@));
                flow.phase = flow.turn_to(at + 1);
            },
            (RetirePhase::DropOwnList, RetireEvent::Stored) => {
                flow.phase = RetirePhase::DropDetails;
            },
            (RetirePhase::DropOwnList, RetireEvent::StoreFailed) => {
                flow.phase = RetirePhase::DropDetails;
                flow.own_list_left = true;
            },
            (RetirePhase::DropDetails, RetireEvent::Stored) => {
                flow.phase = RetirePhase::Finished;
            },
            (RetirePhase::DropDetails, RetireEvent::StoreFailed) => {
                flow.phase = RetirePhase::Finished;
                flow.details_left = true;
            },
            _ => {},
        }
        flow
    }

    /// Whether the flow is in a state that `open` and `advance` lead to:
    /// while a member is at hand, there is one at that position.
    pub fn is_well_formed(&self) -> (yes: bool)
        ensures
            yes == self@.wf(),
    {
        assert(self@.members.len() == self.members.len());
        match self.phase {
            RetirePhase::ReadMember { at } => at < self.members.len(),
            RetirePhase::WriteMember { at } => at < self.members.len(),
            _ => true,
        }
    }

    /// Whether nothing is left to do.
    pub fn is_finished(&self) -> (done: bool)
        ensures
            done == self@.finished(),
    {
        match self.phase {
            RetirePhase::Finished => true,
            _ => false,
        }
    }

    /// Whether every step so far was made.
    pub fn is_clean(&self) -> (clean: bool)
        ensures
            clean == self@.clean(),
    {
        !self.own_list_unread && self.failed_members.len() == 0 && !self.own_list_left
            && !self.details_left
    }
}

} // verus!
