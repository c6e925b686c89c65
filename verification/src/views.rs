//! What the pages show, computed ahead of rendering: links, element ids,
//! and which feed of a page carries the link that loads the next page.

use vstd::prelude::*;
use crate::components::{opt_view, url_for};
use crate::context::AppContext;
use crate::paging::{PageArgs, PageInfo, QueryResult, is_forward_page};
use crate::projection::UserFeed;
use crate::text::{join2, join3, str_eq};

verus! {

/// The cursor an item with cursor `cursor` hands on to load the next page:
/// the page's end cursor, when it is this item's and a next page exists.
pub open spec fn next_cursor_for(info: PageInfo, cursor: Seq<char>) -> Option<Seq<char>> {
    match info.end_cursor {
        Some(end) => if end@ == cursor && info.has_next_page { Some(end@) } else { None },
        None => None,
    }
}

/// The cursor to load the next page from, for the item with cursor `cursor`.
pub fn next_cursor(info: &PageInfo, cursor: &str) -> (res: Option<String>)
    ensures
        opt_view(res) == next_cursor_for(*info, cursor@),
{
    match &info.end_cursor {
        Some(end) => {
            if str_eq(end.as_str(), cursor) && info.has_next_page {
                Some(end.clone())
            } else {
                None
            }
        },
        None => None,
    }
}

/// For each feed of a page, in order, the cursor its card loads the next
/// page from, if any.
pub fn feed_cursors(page: &QueryResult) -> (res: Vec<Option<String>>)
    ensures
        res@.len() == page.edges@.len(),
        forall|i: int| 0 <= i < res@.len() ==> opt_view(#[trigger] res@[i]) == next_cursor_for(page.page_info, page.edges@[i].cursor@),
{
    let mut res: Vec<Option<String>> = Vec::new();
    let mut i: usize = 0;
    while i < page.edges.len()
        invariant
            i <= page.edges@.len(),
            res@.len() == i,
            forall|k: int| 0 <= k < i ==> opt_view(#[trigger] res@[k]) == next_cursor_for(page.page_info, page.edges@[k].cursor@),
        decreases page.edges@.len() - i,
    {
        res.push(next_cursor(&page.page_info, page.edges[i].cursor.as_str()));
        i = i + 1;
    }
    res
}

/// The start and end cursors of each feed card of the index page. The end
/// cursor is as in `feed_cursors`; the start cursor is the same cursor, and
/// only when the list is shown backward.
pub fn index_feed_cursors(page: &QueryResult, backward: bool) -> (res: Vec<(Option<String>, Option<String>)>)
    ensures
        res@.len() == page.edges@.len(),
        forall|i: int| 0 <= i < res@.len() ==> {
            &&& opt_view(#[trigger] res@[i].1) == next_cursor_for(page.page_info, page.edges@[i].cursor@)
            &&& opt_view(res@[i].0) == if backward { next_cursor_for(page.page_info, page.edges@[i].cursor@) } else { None }
        },
{
    let mut res: Vec<(Option<String>, Option<String>)> = Vec::new();
    let mut i: usize = 0;
    while i < page.edges.len()
        invariant
            i <= page.edges@.len(),
            res@.len() == i,
            forall|k: int| 0 <= k < i ==> {
                &&& opt_view(#[trigger] res@[k].1) == next_cursor_for(page.page_info, page.edges@[k].cursor@)
                &&& opt_view(res@[k].0) == if backward { next_cursor_for(page.page_info, page.edges@[k].cursor@) } else { None }
            },
        decreases page.edges@.len() - i,
    {
        let cursor = page.edges[i].cursor.as_str();
        let end_cursor = next_cursor(&page.page_info, cursor);
        let start_cursor = if backward { next_cursor(&page.page_info, cursor) } else { None };
        res.push((start_cursor, end_cursor));
        i = i + 1;
    }
    res
}

/// Only a feed whose cursor is the page's end cursor, on a page that has a
/// next page, carries a link to the next page; so when the cursors of a
/// page are distinct, at most one card does.
pub proof fn lemma_at_most_one_load_more(info: PageInfo, a: Seq<char>, b: Seq<char>)
    requires
        next_cursor_for(info, a) is Some,
        next_cursor_for(info, b) is Some,
    ensures
        a == b,
        info.has_next_page,
{
}

/// On a page answering a forward request, the last card carries the link
/// to the next page, with the page's end cursor, exactly when a next page
/// exists; when none does, no card carries one.
pub proof fn lemma_load_more_on_last_card(page: QueryResult)
    requires
        is_forward_page(page),
        page.edges@.len() > 0,
    ensures
        page.page_info.has_next_page ==> next_cursor_for(page.page_info, page.edges@[page.edges@.len() - 1].cursor@)
            == Some(page.edges@[page.edges@.len() - 1].cursor@),
        !page.page_info.has_next_page ==> forall|i: int| 0 <= i < page.edges@.len()
            ==> next_cursor_for(page.page_info, #[trigger] page.edges@[i].cursor@) is None,
{
}

/// The query of the link that loads the page after `cursor`, keeping the tag.
pub open spec fn load_more_query(cursor: Seq<char>, tag: Option<Seq<char>>) -> Seq<char> {
    "/_load-more?first=20&after="@ + cursor + match tag {
        Some(t) => "&tag="@ + t,
        None => Seq::empty(),
    }
}

/// The query asks for the next 20 feeds after the cursor, and carries a
/// `tag` parameter exactly when a tag is given, holding that tag.
pub proof fn lemma_load_more_query_tag_parameter(cursor: Seq<char>, tag: Option<Seq<char>>)
    ensures
        tag is None ==> load_more_query(cursor, tag) == "/_load-more?first=20&after="@ + cursor,
        tag matches Some(t) ==> load_more_query(cursor, tag) == "/_load-more?first=20&after="@ + cursor + "&tag="@ + t,
{
    assert("/_load-more?first=20&after="@ + cursor + Seq::<char>::empty() =~= "/_load-more?first=20&after="@ + cursor);
}

/// The link that loads the next page, with htmx's trigger and swap.
#[derive(Clone, Debug)]
pub struct LoadMore {
    pub url: String,
    pub trigger: String,
    pub swap: String,
}

/// What a feed card shows besides the feed's own fields.
#[derive(Clone, Debug)]
pub struct FeedCard {
    pub dom_id: String,
    pub load_more: Option<LoadMore>,
    pub read_more_url: String,
}

/// The element id of a feed's card.
pub open spec fn feed_dom_id(id: Seq<char>) -> Seq<char> {
    "feed-"@ + id
}

/// The page of a feed.
pub open spec fn feed_path(id: Seq<char>) -> Seq<char> {
    "/feed/"@ + id
}

/// The card of `feed`: its element id, the link to its page and, when
/// `cursor` is given, the link that loads the page after it once the card
/// is revealed, inserted after the card, and keeping the tag filter.
pub fn feed_card(ctx: &AppContext, feed: &UserFeed, cursor: Option<String>, tag: Option<String>) -> (res: FeedCard)
    ensures
        res.dom_id@ == feed_dom_id(feed.id@),
        res.read_more_url@ == url_for(opt_view(ctx.config.base_url), feed_path(feed.id@)),
        cursor is None ==> res.load_more is None,
        cursor matches Some(c) ==> res.load_more matches Some(l) && {
            &&& l.url@ == url_for(opt_view(ctx.config.base_url), load_more_query(c@, opt_view(tag)))
            &&& l.trigger@ == "revealed"@
            &&& l.swap@ == "afterend"@
        },
        tag is None ==> (cursor matches Some(c) ==> res.load_more matches Some(l)
            && l.url@ == url_for(opt_view(ctx.config.base_url), "/_load-more?first=20&after="@ + c@)),
        tag matches Some(t) ==> (cursor matches Some(c) ==> res.load_more matches Some(l)
            && l.url@ == url_for(opt_view(ctx.config.base_url), "/_load-more?first=20&after="@ + c@ + "&tag="@ + t@)),
{
    proof {
        lemma_load_more_query_tag_parameter(match opt_view(cursor) { Some(c) => c, None => Seq::empty() }, opt_view(tag));
    }
    let load_more = match cursor {
        Some(c) => {
            let tag_part = match &tag {
                Some(t) => join2("&tag=", t.as_str()),
                None => String::new(),
            };
            let query = join3("/_load-more?first=20&after=", c.as_str(), tag_part.as_str());
            proof {
                assert(query@ =~= load_more_query(c@, opt_view(tag)));
            }
            Some(LoadMore {
                url: ctx.create_url(query.as_str()),
                trigger: "revealed".to_owned(),
                swap: "afterend".to_owned(),
            })
        },
        None => None,
    };
    let dom_id = join2("feed-", feed.id.as_str());
    let path = join2("/feed/", feed.id.as_str());
    FeedCard { dom_id, load_more, read_more_url: ctx.create_url(path.as_str()) }
}

/// The classes of the "Global feed" tab: underlined as the current tab
/// when no tag is selected.
pub fn global_link_css(tag: &Option<String>) -> (res: &'static str)
    ensures
        tag is Some ==> res@ == "px-4 pb-2 relative bottom-[-1.3px]"@,
        tag is None ==> res@ == "text-info border-b-2 border-info relative bottom-[-1.3px] px-4 pb-2"@,
{
    if tag.is_some() {
        "px-4 pb-2 relative bottom-[-1.3px]"
    } else {
        "text-info border-b-2 border-info relative bottom-[-1.3px] px-4 pb-2"
    }
}

/// The query of the "Global feed" tab: it remembers the tag being left.
pub fn global_link(tag: &Option<String>) -> (res: String)
    ensures
        tag matches Some(t) ==> res@ == "?prev_tag="@ + t@,
        tag is None ==> res@ == Seq::<char>::empty(),
{
    match tag {
        Some(t) => join2("?prev_tag=", t.as_str()),
        None => String::new(),
    }
}

/// The link that filters the list by `tag`.
pub fn tag_link(ctx: &AppContext, tag: &str) -> (res: String)
    ensures
        res@ == url_for(opt_view(ctx.config.base_url), "?tag="@ + tag@),
{
    let query = join2("?tag=", tag);
    ctx.create_url(query.as_str())
}

/// On the home page an item hands on the page's end cursor when it is its
/// own, whether or not a next page exists.
pub open spec fn home_cursor_for(info: PageInfo, cursor: Seq<char>) -> Option<Seq<char>> {
    match info.end_cursor {
        Some(end) => if end@ == cursor { Some(end@) } else { None },
        None => None,
    }
}

/// For each feed of the home page's list, in order, the cursor its card
/// loads the next slice from, if any.
pub fn home_feed_cursors(page: &QueryResult) -> (res: Vec<Option<String>>)
    ensures
        res@.len() == page.edges@.len(),
        forall|i: int| 0 <= i < res@.len() ==> opt_view(#[trigger] res@[i]) == home_cursor_for(page.page_info, page.edges@[i].cursor@),
{
    let mut res: Vec<Option<String>> = Vec::new();
    let mut i: usize = 0;
    while i < page.edges.len()
        invariant
            i <= page.edges@.len(),
            res@.len() == i,
            forall|k: int| 0 <= k < i ==> opt_view(#[trigger] res@[k]) == home_cursor_for(page.page_info, page.edges@[k].cursor@),
        decreases page.edges@.len() - i,
    {
        let cursor = page.edges[i].cursor.as_str();
        let c = match &page.page_info.end_cursor {
            Some(end) => if str_eq(end.as_str(), cursor) { Some(end.clone()) } else { None },
            None => None,
        };
        res.push(c);
        i = i + 1;
    }
    res
}

/// The query of the home page's link to the slice after `cursor`.
pub open spec fn home_more_query(cursor: Seq<char>, tag: Option<Seq<char>>) -> Seq<char> {
    "?first=20&after="@ + cursor + match tag {
        Some(t) => "&tag="@ + t,
        None => Seq::empty(),
    }
}

/// The query asks for the next 20 feeds after the cursor, and carries a
/// `tag` parameter exactly when a tag is given, holding that tag.
pub proof fn lemma_home_more_query_tag_parameter(cursor: Seq<char>, tag: Option<Seq<char>>)
    ensures
        tag is None ==> home_more_query(cursor, tag) == "?first=20&after="@ + cursor,
        tag matches Some(t) ==> home_more_query(cursor, tag) == "?first=20&after="@ + cursor + "&tag="@ + t,
{
    assert("?first=20&after="@ + cursor + Seq::<char>::empty() =~= "?first=20&after="@ + cursor);
}

/// The card of `feed` on the home page: as `feed_card`, but the next slice
/// is loaded from the home page itself.
pub fn home_feed_card(ctx: &AppContext, feed: &UserFeed, cursor: Option<String>, tag: Option<String>) -> (res: FeedCard)
    ensures
        res.dom_id@ == feed_dom_id(feed.id@),
        res.read_more_url@ == url_for(opt_view(ctx.config.base_url), feed_path(feed.id@)),
        cursor is None ==> res.load_more is None,
        cursor matches Some(c) ==> res.load_more matches Some(l) && {
            &&& l.url@ == url_for(opt_view(ctx.config.base_url), home_more_query(c@, opt_view(tag)))
            &&& l.trigger@ == "revealed"@
            &&& l.swap@ == "afterend"@
        },
        tag is None ==> (cursor matches Some(c) ==> res.load_more matches Some(l)
            && l.url@ == url_for(opt_view(ctx.config.base_url), "?first=20&after="@ + c@)),
        tag matches Some(t) ==> (cursor matches Some(c) ==> res.load_more matches Some(l)
            && l.url@ == url_for(opt_view(ctx.config.base_url), "?first=20&after="@ + c@ + "&tag="@ + t@)),
{
    proof {
        lemma_home_more_query_tag_parameter(match opt_view(cursor) { Some(c) => c, None => Seq::empty() }, opt_view(tag));
    }
    let load_more = match cursor {
        Some(c) => {
            let tag_part = match &tag {
                Some(t) => join2("&tag=", t.as_str()),
                None => String::new(),
            };
            let query = join3("?first=20&after=", c.as_str(), tag_part.as_str());
            proof {
                assert(query@ =~= home_more_query(c@, opt_view(tag)));
            }
            Some(LoadMore {
                url: ctx.create_url(query.as_str()),
                trigger: "revealed".to_owned(),
                swap: "afterend".to_owned(),
            })
        },
        None => None,
    };
    let dom_id = join2("feed-", feed.id.as_str());
    let path = join2("/feed/", feed.id.as_str());
    FeedCard { dom_id, load_more, read_more_url: ctx.create_url(path.as_str()) }
}

/// How many feeds a page shows.
pub const PAGE_SIZE: u16 = 20;

/// The home page shows its full layout when no paging argument is given,
/// then listing the first 20 feeds; with paging arguments it renders only
/// the requested slice of the list.
pub fn root_page_args(args: PageArgs) -> (res: (bool, PageArgs))
    ensures
        res.0 == (args.first is None && args.after is None && args.before is None && args.last is None),
        res.0 ==> res.1.first == Some(PAGE_SIZE) && res.1.after is None && res.1.last is None && res.1.before is None,
        !res.0 ==> res.1 == args,
{
    let display_page = args.is_unset();
    if display_page {
        (true, PageArgs::forward(PAGE_SIZE, None))
    } else {
        (false, args)
    }
}

} // verus!
