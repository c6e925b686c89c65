//! Cursor-based paging of feed lists: the arguments of a request and the
//! page that answers it, as plain values.

use vstd::prelude::*;
use crate::projection::UserFeed;

verus! {

/// Which slice of a list is asked for: the `first` items after the cursor
/// `after`, or the `last` items before the cursor `before`.
#[derive(Clone, Debug)]
pub struct PageArgs {
    pub first: Option<u16>,
    pub after: Option<String>,
    pub last: Option<u16>,
    pub before: Option<String>,
}

impl PageArgs {
    /// The first `first` items after `after`.
    pub fn forward(first: u16, after: Option<String>) -> (res: PageArgs)
        ensures
            res.first == Some(first),
            res.after == after,
            res.last is None,
            res.before is None,
    {
        PageArgs { first: Some(first), after, last: None, before: None }
    }

    /// No slice is asked for at all.
    pub fn is_unset(&self) -> (res: bool)
        ensures
            res == (self.first is None && self.after is None && self.before is None && self.last is None),
    {
        self.first.is_none() && self.after.is_none() && self.before.is_none() && self.last.is_none()
    }
}

/// One item of a page and its cursor.
#[derive(Clone, Debug)]
pub struct Edge {
    pub cursor: String,
    pub node: UserFeed,
}

/// Where a page stands in the whole list.
#[derive(Clone, Debug)]
pub struct PageInfo {
    pub has_previous_page: bool,
    pub has_next_page: bool,
    pub start_cursor: Option<String>,
    pub end_cursor: Option<String>,
}

/// A page of feeds.
#[derive(Clone, Debug)]
pub struct QueryResult {
    pub edges: Vec<Edge>,
    pub page_info: PageInfo,
}

/// A page as `evento_query` answers a forward request: the end cursor is
/// the cursor of its last item (none when the page is empty), and neither a
/// start cursor nor a previous page is reported.
pub open spec fn is_forward_page(page: QueryResult) -> bool {
    let n = page.edges@.len();
    &&& page.page_info.has_previous_page == false
    &&& page.page_info.start_cursor is None
    &&& (n == 0 ==> page.page_info.end_cursor is None)
    &&& (n > 0 ==> (page.page_info.end_cursor matches Some(c) && c@ == page.edges@[n - 1].cursor@))
}

} // verus!
