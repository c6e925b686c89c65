use starter::api::FeedService;
use starter::assets::{asset_path, content_type};
use starter::cli::{log_filter, maintenance_message};
use starter::command::FeedMetadata;
use starter::components::{AppContext as ComponentContext, AppState};
use starter::config::{
    config_file, default_api_addr, default_app_addr, starter_config_file, ApiConfig, AppConfig, StarterConfig,
};
use starter::context::AppContext;
use starter::lang::{PathSource, QuerySource};
use starter::notify::{index_notification, root_notification, subscribe_event, SubscribeEvent};
use starter::paging::{Edge, PageArgs, PageInfo, QueryResult};
use starter::projection::UserFeed;
use starter::validation::{
    display_error, error_alert_lines, ErrorMessage, ValidationError, ValidationErrors, ValidationErrorsKind,
};
use starter::views::{
    feed_card, feed_cursors, global_link, global_link_css, home_feed_card, home_feed_cursors, index_feed_cursors,
    root_page_args, tag_link,
};

fn ctx(base: Option<&str>) -> AppContext {
    AppContext { config: AppConfig { addr: "0.0.0.0:3000".into(), base_url: base.map(|b| b.to_string()) } }
}

#[test]
fn config_defaults() {
    assert_eq!(ApiConfig::default().addr, "0.0.0.0:4000");
    let app = AppConfig::default();
    assert_eq!(app.addr, "0.0.0.0:3000");
    assert_eq!(app.base_url.as_deref(), Some("/starter"));
    assert_eq!(default_api_addr(), "0.0.0.0:4000");
    assert_eq!(default_app_addr(), "0.0.0.0:3000");
    let s = StarterConfig::default();
    assert_eq!(s.api_addr, "0.0.0.0:4000");
    assert_eq!(s.app_addr, "0.0.0.0:3000");
}

#[test]
fn config_file_resolution() {
    let f = config_file(Some("/etc/starter.toml".into()));
    assert_eq!(f.path, "/etc/starter.toml");
    assert!(f.required);
    let f = config_file(None);
    assert_eq!(f.path, "");
    assert!(!f.required);
    let f = starter_config_file(None);
    assert_eq!(f.path, "./starter.toml");
    assert!(!f.required);
    assert!(starter_config_file(Some("x.toml".into())).required);
}

#[test]
fn urls_with_and_without_base() {
    let c = ComponentContext { base_url: Some("/starter".into()) };
    assert_eq!(c.create_url("/feed/1"), "/starter/feed/1");
    assert_eq!(c.create_static_url("favicon.ico"), "/starter/static/favicon.ico");
    let c = ComponentContext { base_url: None };
    assert_eq!(c.create_url("/feed/1"), "/feed/1");
    assert_eq!(c.create_static_url("favicon.ico"), "/static/favicon.ico");
    assert_eq!(ctx(Some("/app")).create_url(""), "/app");
    assert_eq!(ctx(Some("/app")).create_static_url("index.css"), "/app/static/index.css");
    assert_eq!(ctx(None).create_static_url("index.css"), "/static/index.css");
    let state = AppState { config: AppConfig::default() };
    assert_eq!(state.to_context().base_url.as_deref(), Some("/starter"));
}

#[test]
fn static_assets() {
    let base = Some("/starter".to_string());
    assert_eq!(asset_path("/starter/static/index.css", &base), "/static/index.css");
    assert_eq!(asset_path("/static/index.css", &base), "/static/index.css");
    assert_eq!(asset_path("/static/index.css", &None), "/static/index.css");
    let c = ComponentContext { base_url: base.clone() };
    assert_eq!(asset_path(&c.create_static_url("a/b.png"), &base), "/static/a/b.png");
    assert_eq!(content_type("/static/index.css"), "text/css");
    assert_eq!(content_type("/static/favicon"), "application/octet-stream");
    assert_eq!(content_type("/static/data.unknownext"), "application/octet-stream");
}

fn field(code: &str) -> ValidationError {
    ValidationError { code: code.into(), message: None, params: "{}".into(), min: None, max: None, equal: None }
}

#[test]
fn error_messages_by_code() {
    assert!(matches!(display_error(&field("email")), ErrorMessage::Email));
    assert!(matches!(display_error(&field("required")), ErrorMessage::Required));
    assert!(matches!(display_error(&field("phone")), ErrorMessage::Phone));
    assert!(matches!(display_error(&field("url")), ErrorMessage::Unlocalized(_)));
    let mut e = field("length");
    assert!(matches!(display_error(&e), ErrorMessage::Unlocalized(_)));
    e.equal = Some(4);
    assert!(matches!(display_error(&e), ErrorMessage::LengthEqual(4)));
    e.equal = None;
    e.max = Some(9);
    assert!(matches!(display_error(&e), ErrorMessage::LengthMax(9)));
    e.min = Some(2);
    assert!(matches!(display_error(&e), ErrorMessage::LengthMinMax(2, 9)));
    e.max = None;
    assert!(matches!(display_error(&e), ErrorMessage::LengthMin(2)));
    e.equal = Some(1);
    assert!(matches!(display_error(&e), ErrorMessage::Unlocalized(_)));
    let mut odd = field("url");
    odd.params = "{\"value\": String(\"x\")}".into();
    match display_error(&odd) {
        ErrorMessage::Unlocalized(e) => assert_eq!(e.to_string(), "Validation error: url [{\"value\": String(\"x\")}]"),
        _ => panic!("expected the error as validator prints it"),
    }
    let mut both = field("length");
    both.min = Some(1);
    both.equal = Some(2);
    both.params = "{\"min\": Number(1), \"equal\": Number(2)}".into();
    match display_error(&both) {
        ErrorMessage::Unlocalized(e) => {
            assert_eq!(e.to_string(), "Validation error: length [{\"min\": Number(1), \"equal\": Number(2)}]")
        }
        _ => panic!("expected the error as validator prints it"),
    }
    let mut custom = field("email");
    custom.message = Some("bad mail".into());
    match display_error(&custom) {
        ErrorMessage::Custom(m) => assert_eq!(m, "bad mail"),
        _ => panic!("expected the custom message"),
    }
}

#[test]
fn error_alert_paths() {
    let nested = ValidationErrors {
        errors: vec![("street".into(), ValidationErrorsKind::Field(vec![field("required")]))],
    };
    let item = ValidationErrors { errors: vec![("name".into(), ValidationErrorsKind::Field(vec![field("email")]))] };
    let errors = ValidationErrors {
        errors: vec![
            ("title".into(), ValidationErrorsKind::Field(vec![field("required"), field("phone")])),
            ("address".into(), ValidationErrorsKind::Struct(Box::new(nested))),
            ("items".into(), ValidationErrorsKind::List(vec![(3, item)])),
        ],
    };
    let lines = error_alert_lines(&errors);
    let paths: Vec<&str> = lines.iter().map(|l| l.path.as_str()).collect();
    assert_eq!(paths, vec!["title", "title", "address.street", "items[3].name"]);
    assert!(matches!(lines[0].message, ErrorMessage::Required));
    assert!(matches!(lines[1].message, ErrorMessage::Phone));
    assert!(matches!(lines[3].message, ErrorMessage::Email));
}

#[test]
fn refused_title_gives_one_length_line() {
    let input = starter::command::CreateFeedInput { title: "az".into(), user_id: String::new(), request_id: None };
    let errors = input.validate().unwrap_err();
    let lines = error_alert_lines(&errors);
    assert_eq!(lines.len(), 1);
    assert_eq!(lines[0].path, "title");
    assert!(matches!(lines[0].message, ErrorMessage::LengthMinMax(3, 100)));
    match &errors.errors[0].1 {
        ValidationErrorsKind::Field(errs) => {
            assert_eq!(errs[0].params, "{\"min\": Number(3), \"max\": Number(100), \"value\": String(\"az\")}");
            assert_eq!(
                errs[0].to_string(),
                "Validation error: length [{\"min\": Number(3), \"max\": Number(100), \"value\": String(\"az\")}]"
            );
        }
        _ => panic!("expected field errors"),
    }
}

fn user_feed(id: &str) -> UserFeed {
    UserFeed {
        id: id.into(),
        title: "T".into(),
        author: "A".into(),
        content: "C".into(),
        content_short: "C".into(),
        total_likes: 0,
        tags: vec![],
        user_id: 1,
        created_at: 0,
    }
}

fn page(has_next: bool) -> QueryResult {
    QueryResult {
        edges: vec![
            Edge { cursor: "c1".into(), node: user_feed("1") },
            Edge { cursor: "c2".into(), node: user_feed("2") },
        ],
        page_info: PageInfo {
            has_previous_page: false,
            has_next_page: has_next,
            start_cursor: Some("c1".into()),
            end_cursor: Some("c2".into()),
        },
    }
}

#[test]
fn only_last_card_loads_more() {
    assert_eq!(feed_cursors(&page(true)), vec![None, Some("c2".to_string())]);
    assert_eq!(feed_cursors(&page(false)), vec![None, None]);
    assert_eq!(home_feed_cursors(&page(false)), vec![None, Some("c2".to_string())]);
    let both = index_feed_cursors(&page(true), true);
    assert_eq!(both[1], (Some("c2".to_string()), Some("c2".to_string())));
    assert_eq!(both[0], (None, None));
    let fwd = index_feed_cursors(&page(true), false);
    assert_eq!(fwd[1], (None, Some("c2".to_string())));
}

#[test]
fn feed_card_links() {
    let c = ctx(Some("/starter"));
    let card = feed_card(&c, &user_feed("01X"), Some("cur".into()), Some("rust".into()));
    assert_eq!(card.dom_id, "feed-01X");
    assert_eq!(card.read_more_url, "/starter/feed/01X");
    let lm = card.load_more.unwrap();
    assert_eq!(lm.url, "/starter/_load-more?first=20&after=cur&tag=rust");
    assert_eq!(lm.trigger, "revealed");
    assert_eq!(lm.swap, "afterend");
    let plain = feed_card(&ctx(None), &user_feed("9"), Some("cur".into()), None);
    assert_eq!(plain.load_more.unwrap().url, "/_load-more?first=20&after=cur");
    assert!(feed_card(&c, &user_feed("9"), None, None).load_more.is_none());
    let home = home_feed_card(&ctx(None), &user_feed("9"), Some("cur".into()), Some("go".into()));
    assert_eq!(home.load_more.unwrap().url, "?first=20&after=cur&tag=go");
}

#[test]
fn index_links() {
    assert_eq!(global_link(&Some("rust".into())), "?prev_tag=rust");
    assert_eq!(global_link(&None), "");
    assert_eq!(global_link_css(&None), "text-info border-b-2 border-info relative bottom-[-1.3px] px-4 pb-2");
    assert_eq!(global_link_css(&Some("x".into())), "px-4 pb-2 relative bottom-[-1.3px]");
    assert_eq!(tag_link(&ctx(Some("/s")), "rust"), "/s?tag=rust");
}

#[test]
fn home_page_args() {
    let none = PageArgs { first: None, after: None, last: None, before: None };
    let (full, args) = root_page_args(none);
    assert!(full);
    assert_eq!(args.first, Some(20));
    assert!(args.after.is_none() && args.last.is_none() && args.before.is_none());
    let given = PageArgs { first: Some(20), after: Some("c".into()), last: None, before: None };
    let (full, args) = root_page_args(given);
    assert!(!full);
    assert_eq!(args.after.as_deref(), Some("c"));
    let fwd = PageArgs::forward(20, None);
    assert_eq!(fwd.first, Some(20));
}

#[test]
fn language_sources() {
    let params = vec![("lang".to_string(), "fr".to_string()), ("x".to_string(), "y".to_string())];
    assert_eq!(QuerySource::new("lang").languages_from_parts(Some(&params)), vec!["fr"]);
    assert!(QuerySource::new("locale").languages_from_parts(Some(&params)).is_empty());
    assert!(QuerySource::new("lang").languages_from_parts(None).is_empty());
    assert_eq!(PathSource::new("x").languages_from_parts(Some(&params)), vec!["y"]);
}

#[test]
fn language_choice() {
    let state = AppState { config: AppConfig::default() };
    let supported = vec!["en".to_string(), "fr".to_string()];
    assert_eq!(state.lang(&vec!["de".into(), "fr".into(), "en".into()], &supported, "en"), "fr");
    assert_eq!(state.lang(&vec!["de".into()], &supported, "en"), "en");
    assert_eq!(state.lang(&vec![], &supported, "fr"), "fr");
}

#[test]
fn notifications() {
    let m = FeedMetadata { req_id: "r".into(), req_user: 0x67e55044_10b1_426f_9247_bb680e5fe0c8 };
    let ev = subscribe_event("created", user_feed("1"), m.clone()).unwrap();
    let n = index_notification(&ev, "<div/>".into()).unwrap();
    assert_eq!(n.user_id, "67e55044-10b1-426f-9247-bb680e5fe0c8");
    assert_eq!(n.topic, "index");
    assert_eq!(n.event, "created");
    assert_eq!(n.data, "<div/>");
    assert!(subscribe_event("deleted", user_feed("1"), m.clone()).is_none());
    let upd: SubscribeEvent<UserFeed, FeedMetadata> = SubscribeEvent::Updated(user_feed("1"), m.clone());
    assert!(index_notification(&upd, "x".into()).is_none());
    let r = root_notification(&m, "created".into(), "<p/>".into());
    assert_eq!(r.topic, "root");
    assert_eq!(r.event, "created");
    assert_eq!(r.user_id, "67e55044-10b1-426f-9247-bb680e5fe0c8");
}

#[test]
fn cli_texts() {
    assert_eq!(
        log_filter(None),
        "evento=error,pikav_client=error,starter_app=error,starter_api=error,timada_starter_feed=error"
    );
    assert_eq!(
        log_filter(Some("debug".into())),
        "evento=debug,pikav_client=debug,starter_app=debug,starter_api=debug,timada_starter_feed=debug"
    );
    assert_eq!(maintenance_message("migrate"), Some("Migration database...."));
    assert_eq!(maintenance_message("reset"), Some("Reset database..."));
    assert_eq!(maintenance_message("other"), None);
}

#[test]
fn feed_service_answers() {
    assert!(FeedService.create().success);
    assert!(FeedService.list().success);
}
