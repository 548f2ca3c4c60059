use grok::config::{Config, Response};
use grok::mastodon::{Mention, Visibility};
use grok::reply::{
    compose_status, format_pings, host_from_url, respond_to_mention, respond_to_mention_checked,
    MentionContext,
};

fn mention(username: &str, url: &str) -> Mention {
    Mention {
        id: "1".to_string(),
        username: username.to_string(),
        url: url.to_string(),
        accr: None,
    }
}

fn scenario_config() -> Config {
    Config {
        instance: "https://test.com".to_string(),
        token: "API_TOKEN".to_string(),
        polling_interval: 10,
        responses: vec![
            Response {
                chance: 100,
                regex: Some("^hi".to_string()),
                min_words: 1,
                max_words: 2,
                contains_emoji: false,
                words: vec!["A".to_string(), "B".to_string()],
            },
            Response {
                chance: 100,
                regex: None,
                min_words: 1,
                max_words: 2,
                contains_emoji: false,
                words: vec!["C".to_string()],
            },
        ],
    }
}

#[test]
fn host_is_read_from_behind_the_scheme() {
    assert_eq!(host_from_url("https://lunar.place/@luna"), "lunar.place");
    assert_eq!(host_from_url("https://example.com/users/bob"), "example.com");
}

#[test]
fn host_without_scheme_is_the_leading_token() {
    assert_eq!(host_from_url("lunar.place/@luna"), "lunar.place");
    assert_eq!(host_from_url("plain"), "plain");
    assert_eq!(host_from_url(""), "");
}

#[test]
fn host_uses_the_last_scheme_occurrence() {
    assert_eq!(host_from_url("https://a.b/https://c.d/e"), "c.d");
}

#[test]
fn host_without_slash_after_scheme_runs_to_the_end() {
    assert_eq!(host_from_url("https://justhost"), "justhost");
}

#[test]
fn pings_name_every_other_mention() {
    let mentions = vec![
        mention("luna", "https://lunar.place/@luna"),
        mention("bob", "https://b.example/@bob"),
    ];
    let pings = format_pings(&mentions, &"grok".to_string());
    assert_eq!(pings, "@luna@lunar.place @bob@b.example ");
}

#[test]
fn self_mention_is_left_out_of_the_pings() {
    let with_self = vec![
        mention("luna", "https://lunar.place/@luna"),
        mention("grok", "https://home.example/@grok"),
        mention("bob", "https://b.example/@bob"),
    ];
    let without_self = vec![
        mention("luna", "https://lunar.place/@luna"),
        mention("bob", "https://b.example/@bob"),
    ];
    let own = "grok".to_string();
    assert_eq!(format_pings(&with_self, &own), format_pings(&without_self, &own));
}

#[test]
fn empty_mention_list_gives_empty_pings() {
    assert_eq!(format_pings(&vec![], &"grok".to_string()), "");
}

#[test]
fn composed_status_keeps_author_pings_and_body() {
    let s = compose_status(
        &"luna@lunar.place".to_string(),
        &"@bob@b.example ".to_string(),
        &"meow mew".to_string(),
    );
    assert_eq!(s, "@luna@lunar.place @bob@b.example meow mew");
}

#[test]
fn mention_reply_threads_onto_the_status() {
    let config = scenario_config();
    let ctx = MentionContext {
        author_acct: "luna@lunar.place".to_string(),
        text: Some("hi there".to_string()),
        status_id: "status-7".to_string(),
        visibility: Visibility::unlisted,
        mentions: vec![
            mention("grok", "https://home.example/@grok"),
            mention("bob", "https://b.example/@bob"),
        ],
    };
    for _ in 0..50 {
        let post = respond_to_mention(&config, &"grok".to_string(), &ctx);
        assert_eq!(post.in_reply_to_id.as_deref(), Some("status-7"));
        assert_eq!(post.visibility, Some(Visibility::unlisted));
        assert!(post.poll.is_none());
        assert!(post.media_ids.is_empty());
        assert!(!post.sensitive);
        let status = post.status;
        assert!(
            status == "@luna@lunar.place @bob@b.example A"
                || status == "@luna@lunar.place @bob@b.example B",
            "got {status:?}"
        );
    }
}

#[test]
fn checked_mention_reply_rejects_a_bad_table() {
    let mut config = scenario_config();
    config.responses.clear();
    let ctx = MentionContext {
        author_acct: "luna".to_string(),
        text: None,
        status_id: "1".to_string(),
        visibility: Visibility::public,
        mentions: vec![],
    };
    assert!(respond_to_mention_checked(&config, &"grok".to_string(), &ctx).is_none());
}

#[test]
fn checked_mention_reply_accepts_the_scenario_table() {
    let config = scenario_config();
    let ctx = MentionContext {
        author_acct: "luna".to_string(),
        text: Some("bye".to_string()),
        status_id: "1".to_string(),
        visibility: Visibility::public,
        mentions: vec![],
    };
    let post = respond_to_mention_checked(&config, &"grok".to_string(), &ctx)
        .expect("the scenario table must be accepted");
    assert_eq!(post.status, "@luna C");
}
