use upvoted_archiver::Config;
use upvoted_archiver::RedditConfig;
use upvoted_archiver::RedditCredentials;
use upvoted_archiver::Upvotes;
use upvoted_archiver::items::RawRecord;
use upvoted_archiver::items::SubmissionRecord;
use upvoted_archiver::upvoted::FetchAction;
use upvoted_archiver::upvoted::Page;
use upvoted_archiver::upvoted::Session;
use upvoted_archiver::upvoted::UpvotedError;

fn sample_config() -> Config {
    Config {
        reddit: RedditConfig {
            client_id: "client_id".to_owned(),
            client_secret: "client_secret".to_owned(),
            page_size: 100,
        },
        os_arch: "os_arch".to_owned(),
        os_name: "os_name".to_owned(),
        app_version: "0.0.1".to_owned(),
    }
}

fn sample_stream() -> Upvotes {
    Upvotes::new(RedditCredentials::new("username", "password"), sample_config())
}

fn submission(author: &str) -> RawRecord {
    RawRecord::Submission(SubmissionRecord {
        author: author.to_owned(),
        subreddit: "NixOS".to_owned(),
        selftext: "text".to_owned(),
        selftext_html: None,
        permalink: "/r/NixOS/comments/abc/".to_owned(),
        url: None,
    })
}

#[test]
fn fresh_stream_starts_without_session_and_with_first_page_cursor() {
    let up = sample_stream();
    assert!(up.me.is_none());
    assert!(up.cursor.after.is_none());
    assert_eq!(up.cursor.count, 0);
    assert_eq!(up.cursor.limit, 100);
    assert!(!up.stopped);
}

#[test]
fn cursor_evolution_takes_new_token_and_adds_record_count() {
    let mut up = sample_stream();
    assert!(matches!(up.begin_fetch(), FetchAction::Login));
    assert_eq!(up.on_login_result(Some(Session {})), Ok(FetchAction::FetchPage));

    let mut records = Vec::new();
    for i in 0..25u32 {
        records.push(submission(&format!("author{i}")));
    }
    let page = Page {
        records,
        next_after: Some("t3_abc".to_owned()),
    };
    assert_eq!(up.on_page_result(Some(page)), Ok(()));
    assert_eq!(up.cursor.after.as_deref(), Some("t3_abc"));
    assert_eq!(up.cursor.count, 25);
}

#[test]
fn cursor_keeps_stale_token_when_page_omits_it() {
    let mut up = sample_stream();
    up.begin_fetch();
    up.on_login_result(Some(Session {})).unwrap();
    let first = Page {
        records: vec![submission("a")],
        next_after: Some("t3_first".to_owned()),
    };
    up.on_page_result(Some(first)).unwrap();
    assert!(up.take_buffered().is_some());

    assert!(matches!(up.begin_fetch(), FetchAction::FetchPage));
    let second = Page {
        records: vec![submission("b"), submission("c")],
        next_after: None,
    };
    up.on_page_result(Some(second)).unwrap();
    // The stale token is kept and the count keeps growing: the engine
    // never invents an end-of-feed condition.
    assert_eq!(up.cursor.after.as_deref(), Some("t3_first"));
    assert_eq!(up.cursor.count, 3);
    assert!(!up.stopped);
}

#[test]
fn empty_page_leaves_cursor_token_and_buffer_untouched() {
    let mut up = sample_stream();
    up.begin_fetch();
    up.on_login_result(Some(Session {})).unwrap();
    let page = Page {
        records: Vec::new(),
        next_after: None,
    };
    up.on_page_result(Some(page)).unwrap();
    assert!(up.cursor.after.is_none());
    assert_eq!(up.cursor.count, 0);
    assert!(up.take_buffered().is_none());
    assert!(!up.stopped);
}

#[test]
fn login_failure_returns_auth_error_and_stops() {
    let mut up = sample_stream();
    assert!(matches!(up.begin_fetch(), FetchAction::Login));
    assert_eq!(up.on_login_result(None), Err(UpvotedError::Auth));
    assert!(up.me.is_none());
    assert!(up.stopped);
}

#[test]
fn page_failure_after_fresh_login_returns_fetch_error_and_keeps_session() {
    let mut up = sample_stream();
    assert!(matches!(up.begin_fetch(), FetchAction::Login));
    assert_eq!(up.on_login_result(Some(Session {})), Ok(FetchAction::FetchPage));
    assert_eq!(up.on_page_result(None), Err(UpvotedError::Fetch));
    // The single permitted re-login happened before the page request; the
    // failure does not trigger another one.
    assert!(up.me.is_some());
    assert!(up.stopped);
}

#[test]
fn page_failure_with_existing_session_returns_fetch_error() {
    let mut up = sample_stream();
    up.begin_fetch();
    up.on_login_result(Some(Session {})).unwrap();
    up.on_page_result(Some(Page { records: vec![submission("a")], next_after: None }))
        .unwrap();
    assert!(up.take_buffered().is_some());

    assert!(matches!(up.begin_fetch(), FetchAction::FetchPage));
    assert_eq!(up.on_page_result(None), Err(UpvotedError::Fetch));
    assert!(up.stopped);
}

#[test]
fn two_page_feed_yields_items_in_order_with_two_fetches() {
    let mut up = sample_stream();
    let mut fetches: u32 = 0;
    let mut logins: u32 = 0;
    let mut emitted = Vec::new();

    // Pull 3 items from a mocked two-page feed.
    while emitted.len() < 3 {
        if let Some(item) = up.take_buffered() {
            emitted.push(item);
            continue;
        }
        let mut action = up.begin_fetch();
        if matches!(action, FetchAction::Login) {
            logins += 1;
            action = up.on_login_result(Some(Session {})).unwrap();
        }
        assert!(matches!(action, FetchAction::FetchPage));
        fetches += 1;
        let page = if fetches == 1 {
            Page {
                records: vec![submission("one"), submission("two")],
                next_after: Some("X".to_owned()),
            }
        } else {
            Page {
                records: vec![submission("three")],
                next_after: None,
            }
        };
        up.on_page_result(Some(page)).unwrap();
    }

    assert_eq!(fetches, 2);
    assert_eq!(logins, 1);
    let authors: Vec<String> = emitted.iter().map(|i| i.author.clone()).collect();
    assert_eq!(authors, vec!["one".to_owned(), "two".to_owned(), "three".to_owned()]);
    assert_eq!(up.cursor.after.as_deref(), Some("X"));
    assert_eq!(up.cursor.count, 3);
}
