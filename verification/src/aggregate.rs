//! The feed aggregate: the state rebuilt from a feed's events, and how
//! aggregate ids are formed.

use vstd::prelude::*;
use crate::event::{Created, FeedEvent, feed_event_from_name};
use crate::text::{join2, remove_first, remove_first_occurrence, find_from};

verus! {

/// The state of one feed.
#[derive(Clone, Debug)]
pub struct Feed {
    pub title: String,
}

/// The title after an event named `name`, whose payload decoded to a
/// payload with title `data_title` (or did not decode), is applied to a
/// feed titled `title`.
pub open spec fn applied_title(title: Seq<char>, name: Seq<char>, data_title: Option<Seq<char>>) -> Seq<char> {
    if feed_event_from_name(name) == Some(FeedEvent::Created) && data_title is Some {
        data_title.unwrap()
    } else {
        title
    }
}

/// The title after applying `events`, oldest first, to a feed titled `title`.
pub open spec fn replay(title: Seq<char>, events: Seq<(Seq<char>, Option<Seq<char>>)>) -> Seq<char>
    decreases events.len(),
{
    if events.len() == 0 {
        title
    } else {
        applied_title(replay(title, events.drop_last()), events.last().0, events.last().1)
    }
}

/// The title carried by the most recent `created` event whose payload decoded.
pub open spec fn last_created_title(events: Seq<(Seq<char>, Option<Seq<char>>)>) -> Option<Seq<char>>
    decreases events.len(),
{
    if events.len() == 0 {
        None
    } else if feed_event_from_name(events.last().0) == Some(FeedEvent::Created) && events.last().1 is Some {
        events.last().1
    } else {
        last_created_title(events.drop_last())
    }
}

/// The aggregate type of feeds, the prefix of their aggregate ids.
pub open spec fn feed_aggregate_type() -> Seq<char> {
    "feed"@
}

/// The aggregate id of the feed with id `id`.
pub open spec fn feed_aggregate_id(id: Seq<char>) -> Seq<char> {
    "feed_"@ + id
}

impl Default for Feed {
    /// A feed before any event: an empty title.
    fn default() -> (res: Feed)
        ensures
            res.title@ == Seq::<char>::empty(),
    {
        Feed { title: String::new() }
    }
}

impl Feed {

    /// Applies one stored event. `name` is the event's name and `data` its
    /// payload as decoded, `None` when the payload did not decode. A
    /// `created` event with a payload sets the title; any other event, and a
    /// `created` event whose payload did not decode, leaves the feed as it was.
    pub fn apply(&mut self, name: &str, data: Option<Created>)
        ensures
            final(self).title@ == applied_title(old(self).title@, name@, match data {
                Some(d) => Some(d.title@),
                None => None,
            }),
    {
        let Ok(feed_event) = FeedEvent::from_str(name) else {
            return;
        };
        match feed_event {
            FeedEvent::Created => {
                if let Some(d) = data {
                    self.title = d.title;
                }
            },
        }
    }

    /// The aggregate type of feeds.
    pub fn aggregate_type() -> (res: &'static str)
        ensures
            res@ == feed_aggregate_type(),
    {
        "feed"
    }

    /// The aggregate id of the feed `id`: the aggregate type, `_`, the id.
    pub fn aggregate_id(id: &str) -> (res: String)
        ensures
            res@ == feed_aggregate_id(id@),
    {
        proof {
            reveal_strlit("feed_");
        }
        join2("feed_", id)
    }

    /// The feed id within an aggregate id: the aggregate id with its first
    /// occurrence of `feed_` taken out.
    pub fn to_id(aggregate_id: &str) -> (res: String)
        ensures
            res@ == remove_first(aggregate_id@, "feed_"@),
    {
        proof {
            reveal_strlit("feed_");
        }
        remove_first_occurrence(aggregate_id, "feed_")
    }
}

/// Replaying events gives the title of the most recent `created` event
/// whose payload decoded, or the initial title when there is none.
pub proof fn lemma_replay_keeps_last_created_title(title: Seq<char>, events: Seq<(Seq<char>, Option<Seq<char>>)>)
    ensures
        replay(title, events) == match last_created_title(events) {
            Some(t) => t,
            None => title,
        },
    decreases events.len(),
{
    if events.len() > 0 {
        lemma_replay_keeps_last_created_title(title, events.drop_last());
    }
}

/// Events other than `created`, or whose payload did not decode, added after
/// a history do not change the title it rebuilds.
pub proof fn lemma_replay_ignores_other_events(
    title: Seq<char>,
    events: Seq<(Seq<char>, Option<Seq<char>>)>,
    name: Seq<char>,
    data_title: Option<Seq<char>>,
)
    requires
        feed_event_from_name(name) != Some(FeedEvent::Created) || data_title is None,
    ensures
        replay(title, events.push((name, data_title))) == replay(title, events),
{
    assert(events.push((name, data_title)).drop_last() =~= events);
}

/// The id inside the aggregate id of a feed is the feed id itself.
pub proof fn lemma_to_id_inverts_aggregate_id(id: Seq<char>)
    ensures
        remove_first(feed_aggregate_id(id), "feed_"@) == id,
{
    reveal_strlit("feed_");
    let s = feed_aggregate_id(id);
    let p = "feed_"@;
    assert(s.subrange(0, p.len() as int) =~= p);
    assert(find_from(s, p, 0) == Some(0nat));
    assert(s.subrange(0, 0) + s.subrange(p.len() as int, s.len() as int) =~= id);
}

} // verus!
