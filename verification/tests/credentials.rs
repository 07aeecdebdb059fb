use upvoted_archiver::Config;
use upvoted_archiver::RedditConfig;
use upvoted_archiver::RedditCredentials;

#[test]
fn reddit_credentials_debug_fmt() {
    let empty = RedditCredentials {
        username: "".to_owned(),
        password: "".to_owned(),
    };

    let not_empty = RedditCredentials {
        username: "hello".to_owned(),
        password: "world".to_owned(),
    };

    let split_empty = RedditCredentials {
        username: "hello".to_owned(),
        password: "".to_owned(),
    };

    assert_eq!(
        "RedditCredentials { username: \"[MISSING]\", password: \"[MISSING]\" }",
        empty.debug_string()
    );
    assert_eq!(
        "RedditCredentials { username: \"[omitted]\", password: \"[omitted]\" }",
        not_empty.debug_string()
    );
    assert_eq!(
        "RedditCredentials { username: \"[omitted]\", password: \"[MISSING]\" }",
        split_empty.debug_string()
    );
}

#[test]
fn reddeit_credentials_user_agent() {
    let creds = RedditCredentials {
        username: "username".to_owned(),
        password: "".to_owned(),
    };
    let config = Config {
        reddit: RedditConfig {
            client_id: "client_id".to_owned(),
            client_secret: "client_secret".to_owned(),
            page_size: 100,
        },
        os_arch: "os_arch".to_owned(),
        os_name: "os_name".to_owned(),
        app_version: "0.0.1".to_owned(),
    };

    assert_eq!(
        "os_arch-os_name:upvoted_archiver:0.0.1 (by /u/username)",
        creds.user_agent(&config)
    );
}

#[test]
fn test_reddit_credentials_debug_fmt() {
    let empty = RedditCredentials::new("", "");
    let not_empty = RedditCredentials::new("hello", "world");
    let split_empty = RedditCredentials::new("hello", "");

    assert_eq!(
        "RedditCredentials { username: \"[MISSING]\", password: \"[MISSING]\" }",
        empty.debug_string()
    );
    assert_eq!(
        "RedditCredentials { username: \"[omitted]\", password: \"[omitted]\" }",
        not_empty.debug_string()
    );
    assert_eq!(
        "RedditCredentials { username: \"[omitted]\", password: \"[MISSING]\" }",
        split_empty.debug_string()
    );
}

#[test]
fn test_reddeit_credentials_user_agent() {
    let creds = RedditCredentials::new("username", "");
    let config = Config {
        reddit: RedditConfig {
            client_id: "client_id".to_owned(),
            client_secret: "client_secret".to_owned(),
            page_size: 100,
        },
        os_arch: "os_arch".to_owned(),
        os_name: "os_name".to_owned(),
        app_version: "0.0.1".to_owned(),
    };

    assert_eq!(
        "os_arch-os_name:upvoted_archiver:0.0.1 (by /u/username)",
        creds.user_agent(&config)
    );
}

#[test]
fn debug_string_never_contains_credential_values() {
    let creds = RedditCredentials::new("alice", "SECRET-REDACTED");
    let rendered = creds.debug_string();
    assert!(!rendered.contains("alice"));
    assert!(!rendered.contains("SECRET-REDACTED"));
}
