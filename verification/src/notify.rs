//! Live updates: after a feed is projected, the author's open pages are
//! told about it.

use vstd::prelude::*;
use crate::command::FeedMetadata;
use crate::event::{FeedEvent, feed_event_from_name};
use crate::ids::{format_uuid, uuid_text};

verus! {

/// A change to a read model, with the changed item and the request's metadata.
#[derive(Clone, Debug)]
pub enum SubscribeEvent<D, M> {
    Created(D, M),
    Updated(D, M),
    Deleted(D, M),
}

/// A message pushed to one user's open pages on a topic.
#[derive(Clone, Debug)]
pub struct SimpleEvent {
    pub user_id: String,
    pub topic: String,
    pub event: String,
    pub data: String,
}

/// The change that a stored event named `name` makes to the feed list, or
/// nothing for a name that is no feed event.
pub fn subscribe_event<D, M>(name: &str, item: D, metadata: M) -> (res: Option<SubscribeEvent<D, M>>)
    ensures
        feed_event_from_name(name@) is None ==> res is None,
        feed_event_from_name(name@) == Some(FeedEvent::Created) ==> res == Some(SubscribeEvent::Created(item, metadata)),
{
    match FeedEvent::from_str(name) {
        Ok(FeedEvent::Created) => Some(SubscribeEvent::Created(item, metadata)),
        Err(_) => None,
    }
}

/// What the index page of the author is told of a change: a new feed is
/// pushed as the `created` event on the `index` topic, with its rendered
/// card `html`; other changes are not pushed.
pub fn index_notification<D>(event: &SubscribeEvent<D, FeedMetadata>, html: String) -> (res: Option<SimpleEvent>)
    ensures
        event matches SubscribeEvent::Created(_, m) ==> res matches Some(n) && {
            &&& n.user_id@ == uuid_text(m.req_user)
            &&& n.topic@ == "index"@
            &&& n.event@ == "created"@
            &&& n.data@ == html@
        },
        !(event is Created) ==> res is None,
{
    match event {
        SubscribeEvent::Created(_, metadata) => Some(SimpleEvent {
            user_id: format_uuid(metadata.req_user),
            topic: "index".to_owned(),
            event: "created".to_owned(),
            data: html,
        }),
        _ => None,
    }
}

/// What the home page of the author is told of a stored event: the event,
/// under its own name, on the `root` topic, with the rendered card `html`.
pub fn root_notification(metadata: &FeedMetadata, event_name: String, html: String) -> (res: SimpleEvent)
    ensures
        res.user_id@ == uuid_text(metadata.req_user),
        res.topic@ == "root"@,
        res.event@ == event_name@,
        res.data@ == html@,
{
    SimpleEvent {
        user_id: format_uuid(metadata.req_user),
        topic: "root".to_owned(),
        event: event_name,
        data: html,
    }
}

} // verus!
