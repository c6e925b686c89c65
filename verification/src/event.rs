//! Names of the feed events and of the read-model rules, written in
//! kebab-case and parsed back from it.

use vstd::prelude::*;
use crate::projection::{FeedDetailsHandler, TagsCountHandler};
use crate::text::str_eq;

verus! {

/// The events that the feed aggregate emits.
#[derive(Clone, Copy, Debug, PartialEq, Eq, Structural)]
pub enum FeedEvent {
    Created,
}

/// The payload of a `created` event.
#[derive(Clone, Debug)]
pub struct Created {
    pub title: String,
    pub content: String,
    pub tags: Vec<String>,
}

/// A name that no variant carries.
#[derive(Clone, Copy, Debug, PartialEq, Eq, Structural)]
pub struct UnknownName;

/// The kebab-case name of a feed event.
pub open spec fn feed_event_name(e: FeedEvent) -> Seq<char> {
    match e {
        FeedEvent::Created => "created"@,
    }
}

/// The event whose name is `s`, if any.
pub open spec fn feed_event_from_name(s: Seq<char>) -> Option<FeedEvent> {
    if s == "created"@ {
        Some(FeedEvent::Created)
    } else {
        None
    }
}

impl FeedEvent {
    /// The kebab-case name of the event.
    pub fn to_string(&self) -> (res: String)
        ensures
            res@ == feed_event_name(*self),
    {
        match self {
            FeedEvent::Created => "created".to_owned(),
        }
    }

    /// Parses an event name; only the exact kebab-case names are accepted.
    pub fn from_str(s: &str) -> (res: Result<FeedEvent, UnknownName>)
        ensures
            res matches Ok(e) ==> feed_event_from_name(s@) == Some(e),
            res is Err <==> feed_event_from_name(s@) is None,
    {
        if str_eq(s, "created") {
            Ok(FeedEvent::Created)
        } else {
            Err(UnknownName)
        }
    }
}

/// The read-model rules that consume feed events.
#[derive(Clone, Copy, Debug, PartialEq, Eq, Structural)]
pub enum FeedRule {
    TagsCount,
    FeedDetails,
}

/// The kebab-case name of a rule.
pub open spec fn feed_rule_name(r: FeedRule) -> Seq<char> {
    match r {
        FeedRule::TagsCount => "tags-count"@,
        FeedRule::FeedDetails => "feed-details"@,
    }
}

/// The rule whose name is `s`, if any.
pub open spec fn feed_rule_from_name(s: Seq<char>) -> Option<FeedRule> {
    if s == "tags-count"@ {
        Some(FeedRule::TagsCount)
    } else if s == "feed-details"@ {
        Some(FeedRule::FeedDetails)
    } else {
        None
    }
}

impl FeedRule {
    /// The kebab-case name of the rule.
    pub fn to_string(&self) -> (res: String)
        ensures
            res@ == feed_rule_name(*self),
    {
        match self {
            FeedRule::TagsCount => "tags-count".to_owned(),
            FeedRule::FeedDetails => "feed-details".to_owned(),
        }
    }

    /// Parses a rule name; only the exact kebab-case names are accepted.
    pub fn from_str(s: &str) -> (res: Result<FeedRule, UnknownName>)
        ensures
            res matches Ok(r) ==> feed_rule_from_name(s@) == Some(r),
            res is Err <==> feed_rule_from_name(s@) is None,
    {
        if str_eq(s, "tags-count") {
            Ok(FeedRule::TagsCount)
        } else if str_eq(s, "feed-details") {
            Ok(FeedRule::FeedDetails)
        } else {
            Err(UnknownName)
        }
    }
}

/// The handler that serves a rule.
#[derive(Clone, Copy, Debug)]
pub enum RuleHandler {
    TagsCount(TagsCountHandler),
    FeedDetails(FeedDetailsHandler),
}

/// A read-model rule together with the topic filter it subscribes with and
/// the handler that serves it.
#[derive(Clone, Debug)]
pub struct RuleSpec {
    pub rule: FeedRule,
    pub filter: String,
    pub handler: RuleHandler,
}

/// The rules of the feed read model, in registration order: the tag counter
/// first, served by `TagsCountHandler`, then the feed details, served by
/// `FeedDetailsHandler`; both listen to every feed event.
pub fn rules() -> (res: Vec<RuleSpec>)
    ensures
        res@.len() == 2,
        res@[0].rule == FeedRule::TagsCount,
        res@[1].rule == FeedRule::FeedDetails,
        res@[0].filter@ == "feed/**"@,
        res@[1].filter@ == "feed/**"@,
        res@[0].handler is TagsCount,
        res@[1].handler is FeedDetails,
{
    let mut v: Vec<RuleSpec> = Vec::new();
    v.push(RuleSpec {
        rule: FeedRule::TagsCount,
        filter: "feed/**".to_owned(),
        handler: RuleHandler::TagsCount(TagsCountHandler),
    });
    v.push(RuleSpec {
        rule: FeedRule::FeedDetails,
        filter: "feed/**".to_owned(),
        handler: RuleHandler::FeedDetails(FeedDetailsHandler),
    });
    v
}

/// Every event name parses back to the event it names.
pub proof fn lemma_feed_event_name_roundtrip(e: FeedEvent)
    ensures
        feed_event_from_name(feed_event_name(e)) == Some(e),
{
}

/// A name that parses is the name of the event it parses to.
pub proof fn lemma_feed_event_parse_inverse(s: Seq<char>)
    requires
        feed_event_from_name(s) is Some,
    ensures
        feed_event_name(feed_event_from_name(s).unwrap()) == s,
{
}

/// Every rule name parses back to the rule it names.
pub proof fn lemma_feed_rule_name_roundtrip(r: FeedRule)
    ensures
        feed_rule_from_name(feed_rule_name(r)) == Some(r),
{
    reveal_strlit("tags-count");
    reveal_strlit("feed-details");
    assert("feed-details"@.len() != "tags-count"@.len());
}

/// A name that parses is the name of the rule it parses to.
pub proof fn lemma_feed_rule_parse_inverse(s: Seq<char>)
    requires
        feed_rule_from_name(s) is Some,
    ensures
        feed_rule_name(feed_rule_from_name(s).unwrap()) == s,
{
}

} // verus!
