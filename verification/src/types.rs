//! Small values that pass between the service and its collaborators.

use vstd::prelude::*;

verus! {

/// The announcement of a new leading price on the channel of an item.
#[derive(Debug, PartialEq, Eq)]
pub struct MessageToPublish<'a> {
    pub price: &'a str,
}

impl<'a> MessageToPublish<'a> {
    pub fn new(price: &'a str) -> (message: Self)
        ensures
            message.price@ == price@,
    {
        MessageToPublish { price }
    }
}

/// The request to grade a new item, put on the work queue.
#[derive(Debug, PartialEq, Eq)]
pub struct MessageToEnqueue<'a> {
    pub item_id: &'a str,
}

impl<'a> MessageToEnqueue<'a> {
    pub fn new(item_id: &'a str) -> (message: Self)
        ensures
            message.item_id@ == item_id@,
    {
        MessageToEnqueue { item_id }
    }
}

/// Name of the work queue that takes the requests to grade new items.
pub open spec fn rate_queue_name() -> Seq<char> {
    "rate"@
}

pub fn rate_queue() -> (name: String)
    ensures
        name@ == rate_queue_name(),
{
    String::from_str("rate")
}

/// Where the ledger service is reached.
#[derive(Debug, PartialEq, Eq)]
pub struct BlockchainAPIURI {
    pub uri: String,
}

impl Clone for BlockchainAPIURI {
    fn clone(&self) -> (copy: Self)
        ensures
            copy.uri@ == self.uri@,
    {
        BlockchainAPIURI { uri: self.uri.clone() }
    }
}

/// Where the service that schedules the hand-over of sold items is reached.
#[derive(Debug, PartialEq, Eq)]
pub struct TransferSchedulerURI {
    pub uri: String,
}

impl Clone for TransferSchedulerURI {
    fn clone(&self) -> (copy: Self)
        ensures
            copy.uri@ == self.uri@,
    {
        TransferSchedulerURI { uri: self.uri.clone() }
    }
}

/// `base`, a slash, then `tail`.
pub open spec fn under(base: Seq<char>, tail: Seq<char>) -> Seq<char> {
    base + seq!['/'] + tail
}

fn join_path(base: &str, tail: &str) -> (url: String)
    ensures
        url@ == under(base@, tail@),
{
    proof {
        reveal_strlit("/");
    }
    let mut url = String::from_str(base);
    url.append("/");
    url.append(tail);
    assert("/"@ =~= seq!['/']);
    url
}

impl BlockchainAPIURI {
    /// Address of the items of the ledger: new items are posted here.
    pub fn items_url(&self) -> (url: String)
        ensures
            url@ == under(self.uri@, "item"@),
    {
        join_path(self.uri.as_str(), "item")
    }

    /// Address of one item of the ledger: its deletion is requested here.
    pub fn item_url(&self, item_id: &str) -> (url: String)
        ensures
            url@ == under(under(self.uri@, "item"@), item_id@),
    {
        let items = self.items_url();
        join_path(items.as_str(), item_id)
    }

    /// Address that takes the requests to hand an item over.
    pub fn transfer_url(&self) -> (url: String)
        ensures
            url@ == under(self.uri@, "transfer"@),
    {
        join_path(self.uri.as_str(), "transfer")
    }

    /// Address of the items that the ledger holds for a user.
    pub fn user_items_url(&self, user_id: &str) -> (url: String)
        ensures
            url@ == under(under(self.uri@, "userItems"@), user_id@),
    {
        let users = join_path(self.uri.as_str(), "userItems");
        join_path(users.as_str(), user_id)
    }
}

} // verus!
