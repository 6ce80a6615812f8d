//! The items that wait to be handed over to their buyers.
//!
//! For each user the cache holds a list of records, each a JSON document
//! that names its item under `item_id`. An item can be transferred to a
//! user only while it is on the list of that user; once the transfer is on
//! its way, the records of the item are taken off the list.

use vstd::prelude::*;
use crate::errors::ErrorKind;
use crate::json::{json_text_field, json_text_field_of};
use crate::text::str_eq;

verus! {

/// One record of the list of a user.
#[derive(Debug, PartialEq, Eq)]
pub struct TransferRecord {
    pub item_id: String,
    pub item_name: String,
    pub price: String,
    pub seller: String,
}

pub ghost struct TransferRecordView {
    pub item_id: Seq<char>,
    pub item_name: Seq<char>,
    pub price: Seq<char>,
    pub seller: Seq<char>,
}

impl View for TransferRecord {
    type V = TransferRecordView;

    open spec fn view(&self) -> TransferRecordView {
        TransferRecordView {
            item_id: self.item_id@,
            item_name: self.item_name@,
            price: self.price@,
            seller: self.seller@,
        }
    }
}

impl DeepView for TransferRecord {
    type V = TransferRecordView;

    open spec fn deep_view(&self) -> TransferRecordView {
        self@
    }
}

/// Why an item cannot be transferred to a user.
#[derive(Clone, Copy, Debug, PartialEq, Eq, Structural)]
pub enum TransferRefusal {
    /// Nothing waits for the user.
    NothingWaiting,
    /// Other items wait for the user, not this one.
    NotWaitingForUser,
}

impl TransferRefusal {
    pub open spec fn kind_of(self) -> ErrorKind {
        ErrorKind::StateConflict
    }

    pub open spec fn message_of(self) -> Seq<char> {
        match self {
            TransferRefusal::NothingWaiting => "Item Not Available For Transfer"@,
            TransferRefusal::NotWaitingForUser => "Item Not Available For Transfer For User"@,
        }
    }

    pub fn kind(&self) -> (kind: ErrorKind)
        ensures
            kind == self.kind_of(),
    {
        ErrorKind::StateConflict
    }

    pub fn message(&self) -> (text: String)
        ensures
            text@ == self.message_of(),
    {
        match self {
            TransferRefusal::NothingWaiting => String::from_str("Item Not Available For Transfer"),
            TransferRefusal::NotWaitingForUser => String::from_str(
                "Item Not Available For Transfer For User",
            ),
        }
    }
}

/// Whether one of the records is about `item_id`.
pub open spec fn waits(records: Seq<TransferRecordView>, item_id: Seq<char>) -> bool {
    exists|k: int| 0 <= k < records.len() && (#[trigger] records[k]).item_id == item_id
}

/// Whether `item_id` can be transferred to the user with these records.
pub open spec fn transferable(records: Seq<TransferRecordView>, item_id: Seq<char>) -> Result<
    (),
    TransferRefusal,
> {
    if records.len() == 0 {
        Err(TransferRefusal::NothingWaiting)
    } else if !waits(records, item_id) {
        Err(TransferRefusal::NotWaitingForUser)
    } else {
        Ok(())
    }
}

/// Tests whether `item_id` waits for the user with these records.
pub fn check_transferable(records: &Vec<TransferRecord>, item_id: &str) -> (result: Result<
    (),
    TransferRefusal,
>)
    ensures
        result == transferable(records.deep_view(), item_id@),
{
    if records.len() == 0 {
        return Err(TransferRefusal::NothingWaiting);
    }
    let mut i: usize = 0;
    while i < records.len()
        invariant
            i <= records.len(),
            forall|k: int| 0 <= k < i ==> (#[trigger] records.deep_view()[k]).item_id != item_id@,
        decreases records.len() - i,
    {
        if str_eq(records[i].item_id.as_str(), item_id) {
            assert(records.deep_view()[i as int].item_id == item_id@);
            return Ok(());
        }
        i = i + 1;
    }
    Err(TransferRefusal::NotWaitingForUser)
}

/// Whether a record whose `item_id` field reads `field` is about `item_id`.
pub open spec fn field_names(field: Option<Seq<char>>, item_id: Seq<char>) -> bool {
    field == Some(item_id)
}

/// The test that a raw record passes when its `item_id` field names `item_id`.
pub open spec fn about(item_id: Seq<char>) -> spec_fn(Seq<char>) -> bool {
    |entry: Seq<char>| field_names(json_text_field_of(entry, "item_id"@), item_id)
}

/// Tests whether a record whose `item_id` field reads `field` is about
/// `item_id`. A record without such a field is about no item.
pub fn names_item(field: &Option<String>, item_id: &str) -> (yes: bool)
    ensures
        yes == field_names(field.deep_view(), item_id@),
{
    match field {
        Some(named) => str_eq(named.as_str(), item_id),
        None => false,
    }
}

/// The raw records that are about `item_id`, in their order: those that
/// are to be taken off the list. A record that is no JSON document, or
/// that names no item, stays.
pub fn entries_about(entries: &Vec<String>, item_id: &str) -> (chosen: Vec<String>)
    ensures
        chosen.deep_view() == entries.deep_view().filter(about(item_id@)),
{
    let mut chosen: Vec<String> = Vec::new();
    let mut i: usize = 0;
    let ghost test = about(item_id@);
    assert(entries.deep_view().take(0) =~= Seq::<Seq<char>>::empty());
    assert(chosen.deep_view() =~= Seq::<Seq<char>>::empty());
    proof {
        reveal_with_fuel(Seq::filter, 2);
    }
    while i < entries.len()
        invariant
            i <= entries.len(),
            test == about(item_id@),
            chosen.deep_view() == entries.deep_view().take(i as int).filter(test),
        decreases entries.len() - i,
    {
        let ghost before = chosen.deep_view();
        let ghost done = entries.deep_view().take(i as int);
        let ghost more = entries.deep_view().take(i + 1);
        proof {
            reveal_with_fuel(Seq::filter, 2);
            assert(more.drop_last() =~= done);
            assert(more.last() == entries[i as int]@);
        }
        let field = json_text_field(entries[i].as_str(), "item_id");
        if names_item(&field, item_id) {
            chosen.push(entries[i].clone());
            assert(chosen.deep_view() =~= before.push(entries[i as int]@));
        }
        i = i + 1;
    }
    assert(entries.deep_view().take(entries.len() as int) =~= entries.deep_view());
    chosen
}

} // verus!
