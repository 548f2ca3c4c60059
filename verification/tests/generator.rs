use grok::config::{generate_default_config, Config, ConfigError, Response};
use grok::generator::{
    assemble_reply, generate_response, generate_response_checked, generate_response_guarded,
    needs_regeneration,
};

fn rule(chance: u32, regex: Option<&str>, min: u32, max: u32, words: &[&str]) -> Response {
    Response {
        chance,
        regex: regex.map(|p| p.to_string()),
        min_words: min,
        max_words: max,
        contains_emoji: false,
        words: words.iter().map(|w| w.to_string()).collect(),
    }
}

fn config_of(responses: Vec<Response>) -> Config {
    Config {
        instance: "https://test.com".to_string(),
        token: "API_TOKEN".to_string(),
        polling_interval: 10,
        responses,
    }
}

fn scenario_table() -> Config {
    config_of(vec![
        rule(100, Some("^hi"), 1, 2, &["A", "B"]),
        rule(100, None, 1, 2, &["C"]),
    ])
}

#[test]
fn generation_always_returns() {
    let config = config_of(vec![
        rule(50, None, 1, 3, &["x", "y"]),
        rule(0, None, 2, 4, &["z"]),
    ]);
    assert_eq!(config.validate(), Ok(()));
    for _ in 0..500 {
        let (text, count) = generate_response(&config, &None);
        assert!(!text.is_empty());
        assert!((1 <= count && count < 3) || (2 <= count && count < 4));
    }
}

#[test]
fn unconditional_rule_always_selected() {
    let config = scenario_table();
    assert_eq!(config.validate(), Ok(()));
    let text = Some("hi there".to_string());
    for _ in 0..500 {
        let (reply, count) = generate_response(&config, &text);
        assert_eq!(count, 1);
        assert!(reply == "A" || reply == "B", "got {reply:?}");
    }
}

#[test]
fn failing_regex_falls_through_to_last_rule() {
    let config = scenario_table();
    let text = Some("bye".to_string());
    for _ in 0..500 {
        let (reply, count) = generate_response(&config, &text);
        assert_eq!(count, 1);
        assert_eq!(reply, "C");
    }
}

#[test]
fn regex_rule_skipped_without_text() {
    let config = scenario_table();
    for _ in 0..500 {
        let (reply, _) = generate_response(&config, &None);
        assert_eq!(reply, "C");
    }
}

#[test]
fn chance_zero_rule_is_almost_never_selected() {
    let config = config_of(vec![
        rule(0, None, 1, 2, &["rare"]),
        rule(100, None, 1, 2, &["common"]),
    ]);
    let mut rare = 0u32;
    for _ in 0..10_000 {
        let (reply, _) = generate_response(&config, &None);
        if reply == "rare" {
            rare += 1;
        }
    }
    // the draw passes a chance of zero only on the single boundary value,
    // so roughly one trial in a hundred; far fewer than this bound
    assert!(rare < 300, "chance-zero rule selected {rare} times");
}

#[test]
fn word_count_stays_in_selected_range() {
    let config = config_of(vec![rule(100, None, 2, 5, &["a", "b"])]);
    for _ in 0..500 {
        let (reply, count) = generate_response(&config, &None);
        assert!(2 <= count && count < 5);
        assert_eq!(reply.split(' ').count() as u32, count);
    }
}

#[test]
fn guard_rejects_bare_emoji_replies() {
    let config = config_of(vec![rule(100, None, 1, 2, &[":em:", "meow"])]);
    for _ in 0..500 {
        let (reply, count) = generate_response_guarded(&config, &None);
        assert!(!needs_regeneration(&reply, count));
        assert_eq!(reply, "meow");
    }
}

#[test]
fn guard_accepts_multi_word_replies_with_emoji_tokens() {
    let config = config_of(vec![rule(100, None, 2, 3, &[":em:"])]);
    let (reply, count) = generate_response_guarded(&config, &None);
    assert_eq!(count, 2);
    assert_eq!(reply, ":em: :em:");
}

#[test]
fn checked_generation_rejects_unguardable_table() {
    let config = config_of(vec![rule(100, None, 1, 2, &[":em:"])]);
    assert_eq!(config.validate(), Ok(()));
    assert!(generate_response_checked(&config, &None).is_none());
}

#[test]
fn checked_generation_accepts_usable_table() {
    let out = generate_response_checked(&scenario_table(), &None);
    let (reply, count) = out.expect("a usable table must yield a reply");
    assert_eq!(reply, "C");
    assert_eq!(count, 1);
}

#[test]
fn validate_rejects_empty_table() {
    let config = config_of(vec![]);
    assert_eq!(config.validate(), Err(ConfigError::EmptyTable));
}

#[test]
fn validate_rejects_empty_word_range() {
    let config = config_of(vec![
        rule(100, None, 1, 2, &["ok"]),
        rule(100, None, 3, 3, &["x"]),
    ]);
    assert_eq!(
        config.validate(),
        Err(ConfigError::EmptyWordRange { rule: 1 })
    );
}

#[test]
fn validate_rejects_empty_word_list() {
    let config = config_of(vec![rule(100, None, 1, 2, &[])]);
    assert_eq!(config.validate(), Err(ConfigError::EmptyWordList { rule: 0 }));
}

#[test]
fn validate_rejects_bad_regex() {
    let config = config_of(vec![rule(100, Some("("), 1, 2, &["x"])]);
    assert_eq!(config.validate(), Err(ConfigError::InvalidRegex { rule: 0 }));
}

#[test]
fn needs_regeneration_flags_bare_shortcodes_only() {
    assert!(needs_regeneration(&":neocat:".to_string(), 1));
    assert!(needs_regeneration(&":3:".to_string(), 1));
    assert!(!needs_regeneration(&"meow".to_string(), 1));
    assert!(!needs_regeneration(&":neocat:".to_string(), 2));
    // a lone delimiter counts: its first and last character are both ':'
    assert!(needs_regeneration(&":".to_string(), 1));
    assert!(!needs_regeneration(&"".to_string(), 1));
}

#[test]
fn assemble_joins_with_single_spaces() {
    let words: Vec<String> = vec!["A".to_string(), "B".to_string(), "C".to_string()];
    assert_eq!(assemble_reply(&words, &vec![0, 1, 2]), "A B C");
    assert_eq!(assemble_reply(&words, &vec![1]), "B");
    assert_eq!(assemble_reply(&words, &vec![2, 2]), "C C");
    assert_eq!(assemble_reply(&words, &vec![]), "");
}

#[test]
fn default_config_is_well_formed() {
    let config = generate_default_config();
    assert_eq!(config.validate(), Ok(()));
    assert_eq!(config.instance, "https://test.com");
    assert_eq!(config.token, "API_TOKEN");
    assert_eq!(config.polling_interval, 10);
    assert_eq!(config.responses.len(), 3);
    let r0 = &config.responses[0];
    assert_eq!(r0.chance, 100);
    assert_eq!(r0.regex.as_deref(), Some("(@.*)*is this true\\?"));
    assert_eq!((r0.min_words, r0.max_words), (1, 2));
    assert!(r0.contains_emoji);
    assert_eq!(r0.words.len(), 8);
    assert_eq!(r0.words[0], "meow !!!");
    let r1 = &config.responses[1];
    assert_eq!(r1.chance, 10);
    assert!(r1.regex.is_none());
    assert_eq!((r1.min_words, r1.max_words), (1, 10));
    assert_eq!(r1.words.len(), 5);
    assert_eq!(r1.words[0], "waf");
    let r2 = &config.responses[2];
    assert_eq!(r2.chance, 100);
    assert!(r2.regex.is_none());
    assert_eq!((r2.min_words, r2.max_words), (1, 10));
    assert!(!r2.contains_emoji);
    assert_eq!(r2.words.len(), 8);
    assert_eq!(r2.words[7], ":neocat_flop:");
}

#[test]
fn default_config_first_rule_regex_matches_its_prompt() {
    let config = generate_default_config();
    let text = Some("is this true?".to_string());
    let mut seen_first_rule = false;
    for _ in 0..200 {
        let (reply, _) = generate_response(&config, &text);
        if config.responses[0].words.iter().any(|w| w == &reply) {
            seen_first_rule = true;
            break;
        }
    }
    assert!(seen_first_rule);
}

#[test]
fn default_config_passes_the_checked_entry_point() {
    let config = generate_default_config();
    let out = generate_response_checked(&config, &None);
    let (reply, count) = out.expect("the stock table must be accepted");
    assert!(1 <= count && count < 10);
    assert!(!needs_regeneration(&reply, count));
}
