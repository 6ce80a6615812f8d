//! Listings: the item record and the states it moves through.

use vstd::prelude::*;
use crate::text::copy_texts;

verus! {

/// Quality grade of a listing, assigned after submission.
#[derive(Clone, Copy, Debug, PartialEq, Eq, Structural)]
pub enum Rating {
    PENDING,
    ONE,
    TWO,
    THREE,
    FOUR,
    FIVE,
}

/// Where a listing stands in its life.
#[derive(Clone, Copy, Debug, PartialEq, Eq, Structural)]
pub enum ItemStatus {
    PENDING,
    ACTIVE,
    TRANSFERRING,
    SOLD,
    UNSOLD,
}

impl ItemStatus {
    /// The upper-case name under which the status is stored.
    pub open spec fn name(self) -> Seq<char> {
        match self {
            ItemStatus::PENDING => "PENDING"@,
            ItemStatus::ACTIVE => "ACTIVE"@,
            ItemStatus::TRANSFERRING => "TRANSFERRING"@,
            ItemStatus::SOLD => "SOLD"@,
            ItemStatus::UNSOLD => "UNSOLD"@,
        }
    }

    /// Only an active listing takes bids.
    pub open spec fn biddable(self) -> bool {
        self == ItemStatus::ACTIVE
    }

    pub fn to_string(&self) -> (text: String)
        ensures
            text@ == self.name(),
    {
        match self {
            ItemStatus::PENDING => String::from_str("PENDING"),
            ItemStatus::ACTIVE => String::from_str("ACTIVE"),
            ItemStatus::TRANSFERRING => String::from_str("TRANSFERRING"),
            ItemStatus::SOLD => String::from_str("SOLD"),
            ItemStatus::UNSOLD => String::from_str("UNSOLD"),
        }
    }

    pub fn is_biddable(&self) -> (yes: bool)
        ensures
            yes == self.biddable(),
    {
        match self {
            ItemStatus::ACTIVE => true,
            _ => false,
        }
    }
}

impl Rating {
    /// The upper-case name under which the grade is stored.
    pub open spec fn name(self) -> Seq<char> {
        match self {
            Rating::PENDING => "PENDING"@,
            Rating::ONE => "ONE"@,
            Rating::TWO => "TWO"@,
            Rating::THREE => "THREE"@,
            Rating::FOUR => "FOUR"@,
            Rating::FIVE => "FIVE"@,
        }
    }

    pub fn to_string(&self) -> (text: String)
        ensures
            text@ == self.name(),
    {
        match self {
            Rating::PENDING => String::from_str("PENDING"),
            Rating::ONE => String::from_str("ONE"),
            Rating::TWO => String::from_str("TWO"),
            Rating::THREE => String::from_str("THREE"),
            Rating::FOUR => String::from_str("FOUR"),
            Rating::FIVE => String::from_str("FIVE"),
        }
    }
}

/// A listing.
#[derive(Debug, PartialEq, Eq)]
pub struct Item {
    pub id: Option<String>,
    pub title: String,
    pub description: String,
    pub images: Vec<String>,
    pub category: String,
    /// End of the auction, in milliseconds since the epoch.
    pub auction_end: i64,
    pub rating: Rating,
    pub status: ItemStatus,
    /// Price of the first bid, in the smallest unit of the currency.
    pub base_price: i64,
}

pub ghost struct ItemView {
    pub id: Option<Seq<char>>,
    pub title: Seq<char>,
    pub description: Seq<char>,
    pub images: Seq<Seq<char>>,
    pub category: Seq<char>,
    pub auction_end: i64,
    pub rating: Rating,
    pub status: ItemStatus,
    pub base_price: i64,
}

impl View for Item {
    type V = ItemView;

    open spec fn view(&self) -> ItemView {
        ItemView {
            id: match self.id {
                Some(id) => Some(id@),
                None => None,
            },
            title: self.title@,
            description: self.description@,
            images: self.images.deep_view(),
            category: self.category@,
            auction_end: self.auction_end,
            rating: self.rating,
            status: self.status,
            base_price: self.base_price,
        }
    }
}

impl DeepView for Item {
    type V = ItemView;

    open spec fn deep_view(&self) -> ItemView {
        self@
    }
}

impl Clone for Item {
    fn clone(&self) -> (copy: Self)
        ensures
            copy@ == self@,
    {
        Item {
            id: match &self.id {
                Some(id) => Some(id.clone()),
                None => None,
            },
            title: self.title.clone(),
            description: self.description.clone(),
            images: copy_texts(&self.images),
            category: self.category.clone(),
            auction_end: self.auction_end,
            rating: self.rating,
            status: self.status,
            base_price: self.base_price,
        }
    }
}

impl Item {
    /// Whether the item has this identifier.
    pub open spec fn is_named(self, item_id: Seq<char>) -> bool {
        self@.id == Some(item_id)
    }

    pub fn has_id(&self, item_id: &str) -> (yes: bool)
        ensures
            yes == self.is_named(item_id@),
    {
        match &self.id {
            Some(id) => {
                let wanted = String::from_str(item_id);
                *id == wanted
            },
            None => false,
        }
    }
}

} // verus!
