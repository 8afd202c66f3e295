//! Plain data carried through one fetch cycle.
//!
//! An item is an opaque record with a stable unique identifier and a
//! handful of display fields; identity is `id`, everything else is
//! payload and never compared.

use vstd::prelude::*;

verus! {

/// One catalog listing. Identity is `id`; the remaining fields are
/// display payload for notifications.
#[derive(Debug)]
pub struct Item {
    pub id: i64,
    pub title: String,
    pub price: String,
    pub currency: String,
    pub brand_title: String,
}

impl Clone for Item {
    fn clone(&self) -> (r: Self)
        ensures
            r == *self,
    {
        Item {
            id: self.id,
            title: self.title.clone(),
            price: self.price.clone(),
            currency: self.currency.clone(),
            brand_title: self.brand_title.clone(),
        }
    }
}

/// Pagination summary of one catalog response.
#[derive(Clone, Copy, Debug, PartialEq, Eq, Structural)]
pub struct Pagination {
    pub current_page: u32,
    pub per_page: u32,
    pub total_entries: u32,
    pub total_pages: u32,
}

/// One page of catalog results as handed in by the transport.
#[derive(Debug)]
pub struct PaginatedResponse<T> {
    pub items: Vec<T>,
    pub pagination: Pagination,
}

/// Reserved extension record of a photo; carries no fields today.
#[derive(Clone, Copy, Debug, PartialEq, Eq, Structural)]
pub struct Extra {}

/// Reserved extension record of a user photo; carries no fields today.
#[derive(Clone, Copy, Debug, PartialEq, Eq, Structural)]
pub struct Extra2 {}

/// A scaled rendition of a listing photo.
#[derive(Debug)]
pub struct Thumbnail {
    pub height: i64,
    pub original_size: Option<bool>,
    pub type_field: String,
    pub url: String,
    pub width: i64,
}

} // verus!
