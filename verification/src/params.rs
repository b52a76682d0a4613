use vstd::prelude::*;

verus! {

/// Offset and limit of a page of a listing, as given in the query string.
#[derive(Debug)]
pub struct Page {
    pub offset: Option<i64>,
    pub limit: Option<i64>,
}

/// The text to search for in a listing, as given in the query string.
#[derive(Debug)]
pub struct Search {
    pub q: Option<String>,
}

/// The offset of the default page.
pub const DEFAULT_OFFSET: i64 = 0;

/// The number of rows on the default page.
pub const DEFAULT_LIMIT: i64 = 10;

impl Default for Page {
    /// The first page, of ten rows.
    fn default() -> (page: Self)
        ensures
            page.offset == Some(DEFAULT_OFFSET),
            page.limit == Some(DEFAULT_LIMIT),
    {
        Page { offset: Some(DEFAULT_OFFSET), limit: Some(DEFAULT_LIMIT) }
    }
}

} // verus!
