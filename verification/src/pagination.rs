//! Pages of a listing.

use vstd::prelude::*;

verus! {

/// Which part of a listing is asked for: how many entries to pass over, and
/// how many to give at most. By default no entry is passed over, and all that
/// follow are given.
#[derive(Clone, Copy, Debug, PartialEq, Eq)]
pub struct Pagination {
    pub offset: Option<usize>,
    pub limit: Option<usize>,
}

impl Default for Pagination {
    fn default() -> (pagination: Pagination)
        ensures
            pagination == (Pagination { offset: None, limit: None }),
    {
        Pagination { offset: None, limit: None }
    }
}

impl Pagination {
    /// Where the page starts in a listing of `len` entries.
    pub open spec fn start(self, len: nat) -> int {
        match self.offset {
            Some(offset) if offset < len => offset as int,
            Some(_) => len as int,
            None => 0,
        }
    }

    /// Where the page ends in a listing of `len` entries.
    pub open spec fn end(self, len: nat) -> int {
        match self.limit {
            Some(limit) if self.start(len) + limit < len => self.start(len) + limit,
            _ => len as int,
        }
    }

    /// The page of `listing` that is asked for.
    pub open spec fn page<T>(self, listing: Seq<T>) -> Seq<T> {
        listing.subrange(self.start(listing.len()), self.end(listing.len()))
    }

    /// Picks the page that is asked for out of `listing`.
    pub fn select<'a, T>(&self, listing: &Vec<&'a T>) -> (page: Vec<&'a T>)
        ensures
            page@ == self.page(listing@),
            forall|i: int|
                0 <= i < page.len() ==> #[trigger] page[i] == listing[i + (if self.offset is Some {
                    self.offset->0 as int
                } else {
                    0
                })],
            self.limit is Some ==> page.len() <= self.limit->0,
    {
        let start: usize = match self.offset {
            Some(offset) if offset < listing.len() => offset,
            Some(_) => listing.len(),
            None => 0,
        };
        let end: usize = match self.limit {
            Some(limit) if limit < listing.len() - start => start + limit,
            _ => listing.len(),
        };
        let mut page: Vec<&'a T> = Vec::new();
        let mut at: usize = start;
        while at < end
            invariant
                start <= at <= end <= listing.len(),
                page@ == listing@.subrange(start as int, at as int),
            decreases end - at,
        {
            page.push(listing[at]);
            at = at + 1;
        }
        page
    }
}

/// The entry at place `i` of a page is the one at place `offset + i` of the
/// listing. The page has `limit` entries, or as many as are left behind the
/// offset where these are fewer. A missing offset counts as 0, a missing limit as
/// no bound.
pub proof fn law_page_is_cut_by_offset_and_limit<T>(pagination: Pagination, listing: Seq<T>)
    ensures
        ({
            let page = pagination.page(listing);
            let offset: int = if pagination.offset is Some {
                pagination.offset->0 as int
            } else {
                0
            };
            let left: int = if listing.len() > offset {
                listing.len() - offset
            } else {
                0
            };
            &&& page.len() == if pagination.limit is Some && pagination.limit->0 < left {
                pagination.limit->0 as int
            } else {
                left
            }
            &&& forall|i: int| 0 <= i < page.len() ==> #[trigger] page[i] == listing[offset + i]
        }),
{
}

/// To pass over one entry more is to leave out the first entry of the page, where
/// it has any.
pub proof fn law_next_offset_drops_the_first<T>(offset: usize, listing: Seq<T>)
    requires
        offset < usize::MAX,
    ensures
        ({
            let page = (Pagination { offset: Some(offset), limit: None }).page(listing);
            let next = (Pagination { offset: Some((offset + 1) as usize), limit: None }).page(
                listing,
            );
            next == if page.len() > 0 {
                page.drop_first()
            } else {
                page
            }
        }),
{
}

/// A limit keeps the front of the page that there is without it.
pub proof fn law_limit_keeps_the_front<T>(offset: Option<usize>, limit: usize, listing: Seq<T>)
    ensures
        ({
            let whole = (Pagination { offset, limit: None }).page(listing);
            let page = (Pagination { offset, limit: Some(limit) }).page(listing);
            page == if limit < whole.len() {
                whole.take(limit as int)
            } else {
                whole
            }
        }),
{
}

/// A page of `n` entries and the page that passes over `n` entries make up the
/// whole listing: nothing falls between two pages, and nothing is on both.
pub proof fn law_pages_join<T>(listing: Seq<T>, n: usize)
    ensures
        (Pagination { offset: None, limit: Some(n) }).page(listing) + (Pagination {
            offset: Some(n),
            limit: None,
        }).page(listing) == listing,
{
}

/// What is asked for by default is the whole listing.
pub proof fn law_default_page_is_all<T>(listing: Seq<T>)
    ensures
        (Pagination { offset: None, limit: None }).page(listing) == listing,
{
}

} // verus!
