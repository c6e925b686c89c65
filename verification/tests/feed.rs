use starter::aggregate::Feed;
use starter::command::{distinct_tags, CreateFeedError, CreateFeedInput};
use starter::event::{rules, Created, FeedEvent, FeedRule, RuleHandler};
use starter::projection::{
    content_short, feeds_projection, project_created, tags_count_projection, DecodeError, FeedDetailsHandler,
    ListFeedsInput, ProjectionError, StoredEvent, TagsCountHandler, UserFeed,
};
use starter::command::FeedMetadata;

fn created(title: &str, content: &str, tags: &[&str]) -> Created {
    Created {
        title: title.to_string(),
        content: content.to_string(),
        tags: tags.iter().map(|t| t.to_string()).collect(),
    }
}

#[test]
fn event_names_round_trip() {
    assert_eq!(FeedEvent::Created.to_string(), "created");
    assert_eq!(FeedEvent::from_str("created"), Ok(FeedEvent::Created));
    assert!(FeedEvent::from_str("Created").is_err());
    assert!(FeedEvent::from_str("updated").is_err());
    assert_eq!(FeedRule::TagsCount.to_string(), "tags-count");
    assert_eq!(FeedRule::FeedDetails.to_string(), "feed-details");
    assert_eq!(FeedRule::from_str("tags-count"), Ok(FeedRule::TagsCount));
    assert_eq!(FeedRule::from_str("feed-details"), Ok(FeedRule::FeedDetails));
    assert!(FeedRule::from_str("feed_details").is_err());
}

#[test]
fn rules_listen_to_every_feed_event() {
    let r = rules();
    assert_eq!(r.len(), 2);
    assert_eq!(r[0].rule, FeedRule::TagsCount);
    assert_eq!(r[1].rule, FeedRule::FeedDetails);
    assert_eq!(r[0].filter, "feed/**");
    assert_eq!(r[1].filter, "feed/**");
    assert!(matches!(r[0].handler, RuleHandler::TagsCount(_)));
    assert!(matches!(r[1].handler, RuleHandler::FeedDetails(_)));
}

#[test]
fn aggregate_takes_title_of_created_events() {
    let mut feed = Feed::default();
    assert_eq!(feed.title, "");
    feed.apply("created", Some(created("first", "c", &[])));
    assert_eq!(feed.title, "first");
    feed.apply("created", None);
    assert_eq!(feed.title, "first");
    feed.apply("renamed", Some(created("ignored", "c", &[])));
    assert_eq!(feed.title, "first");
    feed.apply("created", Some(created("second", "c", &[])));
    assert_eq!(feed.title, "second");
}

#[test]
fn aggregate_ids() {
    assert_eq!(Feed::aggregate_type(), "feed");
    assert_eq!(Feed::aggregate_id("01ABC"), "feed_01ABC");
    assert_eq!(Feed::to_id("feed_01ABC"), "01ABC");
    assert_eq!(Feed::to_id(&Feed::aggregate_id("x_feed_y")), "x_feed_y");
    assert_eq!(Feed::to_id("user_feed_7"), "user_7");
    assert_eq!(Feed::to_id("nothing"), "nothing");
    assert_eq!(Feed::to_id("feed"), "feed");
}

#[test]
fn title_validation_bounds() {
    let input = |t: &str| CreateFeedInput { title: t.to_string(), user_id: String::new(), request_id: None };
    assert!(input("aze").validate().is_ok());
    assert!(input(&"a".repeat(100)).validate().is_ok());
    assert!(input("ééé").validate().is_ok());
    let err = input("az").validate().unwrap_err();
    assert_eq!(err.errors.len(), 1);
    assert_eq!(err.errors[0].0, "title");
    match &err.errors[0].1 {
        starter::validation::ValidationErrorsKind::Field(errs) => {
            assert_eq!(errs.len(), 1);
            assert_eq!(errs[0].code, "length");
            assert_eq!(errs[0].min, Some(3));
            assert_eq!(errs[0].max, Some(100));
            assert_eq!(errs[0].equal, None);
            assert!(errs[0].message.is_none());
        }
        _ => panic!("expected field errors"),
    }
    assert!(input(&"a".repeat(101)).validate().is_err());
    assert!(input("").validate().is_err());
}

#[test]
fn distinct_tags_keeps_first_occurrences() {
    let tags: Vec<String> = ["a", "b", "a", "c", "b"].iter().map(|s| s.to_string()).collect();
    assert_eq!(distinct_tags(&tags), vec!["a", "b", "c"]);
    assert!(distinct_tags(&Vec::new()).is_empty());
}

const USER: &str = "67e55044-10b1-426f-9247-bb680e5fe0c8";

#[test]
fn build_creation_uses_drawn_values() {
    let input = CreateFeedInput { title: "aze".into(), user_id: USER.into(), request_id: None };
    let drawn: Vec<String> = vec!["x".into(), "y".into(), "x".into()];
    let c = input
        .build_creation("01KEY".into(), "fresh".into(), &drawn, "A title.".into(), "Body".into())
        .unwrap();
    assert_eq!(c.aggregate_key, "01KEY");
    assert_eq!(c.metadata.req_id, "fresh");
    assert_eq!(c.metadata.req_user, 0x67e55044_10b1_426f_9247_bb680e5fe0c8u128);
    assert_eq!(c.event.title, "A title.");
    assert_eq!(c.event.content, "Body");
    assert_eq!(c.event.tags, vec!["x", "y"]);

    let with_request = CreateFeedInput { title: "aze".into(), user_id: USER.into(), request_id: Some("req-1".into()) };
    let c = with_request
        .build_creation("k".into(), "fresh".into(), &drawn, "t.".into(), "b".into())
        .unwrap();
    assert_eq!(c.metadata.req_id, "req-1");
}

#[test]
fn build_creation_refuses_bad_user_id() {
    let input = CreateFeedInput { title: "aze".into(), user_id: "not-a-uuid".into(), request_id: None };
    let r = input.build_creation("k".into(), "f".into(), &Vec::new(), "t.".into(), "b".into());
    assert_eq!(r.err(), Some(CreateFeedError::InvalidUserId));
}

#[test]
fn handle_prepares_sample_feed() {
    let input = CreateFeedInput { title: "aze".into(), user_id: USER.into(), request_id: None };
    for _ in 0..20 {
        let c = input.handle().unwrap();
        assert_eq!(c.aggregate_key.len(), 26);
        assert_eq!(c.metadata.req_id.len(), 36);
        assert!(uuid::Uuid::parse_str(&c.metadata.req_id).is_ok());
        assert!(c.aggregate_key.chars().all(|ch| "0123456789ABCDEFGHJKMNPQRSTVWXYZ".contains(ch)));
        assert!(c.event.tags.iter().all(|t| !t.is_empty()));
        assert!(c.event.title.ends_with('.'));
        let words = c.event.title.split(' ').count();
        assert!((5..=9).contains(&words));
        let sentences = c.event.content.split('\n').count();
        assert!((50..=99).contains(&sentences));
        assert!(!c.event.tags.is_empty() && c.event.tags.len() <= 5);
        let mut seen = c.event.tags.clone();
        seen.sort();
        seen.dedup();
        assert_eq!(seen.len(), c.event.tags.len());
    }
    let bad = CreateFeedInput { title: "aze".into(), user_id: "zzz".into(), request_id: None };
    assert_eq!(bad.handle().err(), Some(CreateFeedError::InvalidUserId));
}

#[test]
fn content_short_keeps_250_chars() {
    assert_eq!(content_short("short"), "short");
    let long = "é".repeat(300);
    let s = content_short(&long);
    assert_eq!(s.chars().count(), 250);
    assert!(long.starts_with(&s));
    let exact = "x".repeat(250);
    assert_eq!(content_short(&exact), exact);
}

fn stored(name: &str) -> StoredEvent {
    StoredEvent { name: name.into(), aggregate_id: "feed_01XYZ".into(), created_at: 1_700_000_000_000_000 }
}

fn metadata() -> FeedMetadata {
    FeedMetadata { req_id: "r".into(), req_user: 42 }
}

#[test]
fn projection_of_created_feed() {
    let feed: UserFeed = project_created(&stored("created"), &metadata(), created("T", "Body", &["rust"]), "Ann".into());
    assert_eq!(feed.id, "01XYZ");
    assert_eq!(feed.title, "T");
    assert_eq!(feed.author, "Ann");
    assert_eq!(feed.content, "Body");
    assert_eq!(feed.content_short, "Body");
    assert_eq!(feed.total_likes, 0);
    assert_eq!(feed.tags, vec!["rust"]);
    assert_eq!(feed.user_id, 42);
    assert_eq!(feed.created_at, 1_700_000_000_000_000);
    assert_eq!(UserFeed::keys(), vec!["created_at", "id"]);
}

#[test]
fn feed_details_handler_cases() {
    let h = FeedDetailsHandler;
    let r = h.handle(&stored("deleted"), Ok(Some(metadata())), Ok(created("T", "B", &[])));
    assert_eq!(r.err(), Some(ProjectionError::UnknownEvent));
    let r = h.handle(&stored("created"), Ok(None), Ok(created("T", "B", &[])));
    assert!(matches!(r, Ok(None)));
    let r = h.handle(&stored("created"), Err(DecodeError), Ok(created("T", "B", &[])));
    assert_eq!(r.err(), Some(ProjectionError::Decode));
    let r = h.handle(&stored("created"), Ok(Some(metadata())), Err(DecodeError));
    assert_eq!(r.err(), Some(ProjectionError::Decode));
    let f = h.handle(&stored("created"), Ok(Some(metadata())), Ok(created("T", "B", &["a"]))).unwrap().unwrap();
    assert_eq!(f.id, "01XYZ");
    assert_eq!(f.title, "T");
    assert_eq!(f.user_id, 42);
    assert!(!f.author.is_empty());
}

#[test]
fn tags_count_handler_cases() {
    let h = TagsCountHandler;
    assert_eq!(h.handle(&stored("created"), Ok(created("T", "B", &["a", "b"]))).unwrap(), vec!["a", "b"]);
    assert_eq!(h.handle(&stored("nope"), Ok(created("T", "B", &[]))).err(), Some(ProjectionError::UnknownEvent));
    assert_eq!(h.handle(&stored("created"), Err(DecodeError)).err(), Some(ProjectionError::Decode));
}

#[test]
fn feeds_subscriber_cases() {
    let r = feeds_projection(&stored("deleted"), Err(DecodeError), Err(DecodeError));
    assert!(matches!(r, Ok(None)));
    let r = feeds_projection(&stored("created"), Err(DecodeError), Ok(created("T", "B", &[])));
    assert_eq!(r.err(), Some(DecodeError));
    let r = feeds_projection(&stored("created"), Ok(metadata()), Err(DecodeError));
    assert_eq!(r.err(), Some(DecodeError));
    let f = feeds_projection(&stored("created"), Ok(metadata()), Ok(created("T", "B", &["a"]))).unwrap().unwrap();
    assert_eq!(f.id, "01XYZ");
    assert_eq!(f.content_short, "B");
    assert_eq!(f.tags, vec!["a"]);
    assert_eq!(f.user_id, 42);
    assert!(!f.author.is_empty());
    assert_eq!(f.author.matches(' ').count(), 1);
    assert!(!f.author.starts_with(' ') && !f.author.ends_with(' '));
}

#[test]
fn tags_count_subscriber_cases() {
    let r = tags_count_projection(&stored("created"), Ok(created("T", "B", &["a", "b"])));
    assert_eq!(r.unwrap(), Some(vec!["a".to_string(), "b".to_string()]));
    assert_eq!(tags_count_projection(&stored("nope"), Err(DecodeError)).unwrap(), None);
    assert_eq!(tags_count_projection(&stored("created"), Err(DecodeError)).err(), Some(DecodeError));
}

#[test]
fn list_feeds_query() {
    let input = ListFeedsInput { first: Some(20), after: Some("c".into()), last: None, before: None, tag: Some("rust".into()) };
    let q = input.query();
    assert_eq!(q.sql, "SELECT * FROM feed_feeds WHERE tags @> ARRAY[$1]");
    assert_eq!(q.tag.as_deref(), Some("rust"));
    assert_eq!(q.args.first, Some(20));
    assert_eq!(q.args.after.as_deref(), Some("c"));
    assert!(q.descending);
    let all = ListFeedsInput { first: None, after: None, last: Some(5), before: None, tag: None };
    let q = all.query();
    assert_eq!(q.sql, "SELECT * FROM feed_feeds");
    assert_eq!(q.args.last, Some(5));
}
