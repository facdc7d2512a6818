use mothy::moderation::{
    audit_entry, escape_backticks, filters_apply, join_with_newlines, lines_of, moderate,
    FilterConfig, RegexFilters,
};

fn config() -> FilterConfig {
    FilterConfig {
        filters_allowed_guilds: vec![100],
        filter_bypass_roles: vec![7],
        blacklist_logs_channels: vec![(100, 555)],
    }
}

#[test]
fn link_in_allowed_guild_is_deleted_and_audited() {
    let filters = RegexFilters::new("bit\\.ly\n").unwrap();
    let hit = moderate(&config(), &filters, Some(100), &vec![3], "check this out http://bit.ly/xyz")
        .expect("the message is to be deleted");
    assert_eq!(hit.candidates, "http://bit.ly/xyz");
    assert_eq!(hit.rule, "bit\\.ly");
    assert_eq!(hit.matched, "bit.ly");
    assert_eq!(hit.rule_index, 0);

    let entry = audit_entry(&config(), Some(100), &hit, 1, 2, "check this out http://bit.ly/xyz")
        .expect("the guild has a log channel");
    assert_eq!(entry.log_channel, 555);
    assert_eq!(entry.links, "http://bit.ly/xyz");
    assert_eq!(entry.rule, "bit\\.ly");
    assert_eq!(entry.reason, "bit.ly");
    assert_eq!(entry.author_id, 1);
    assert_eq!(entry.channel_id, 2);
}

#[test]
fn message_without_links_is_left() {
    let filters = RegexFilters::new("bit\\.ly").unwrap();
    assert!(moderate(&config(), &filters, Some(100), &vec![], "no links here").is_none());
}

#[test]
fn denylist_ignores_case() {
    let filters = RegexFilters::new("bit\\.ly").unwrap();
    let hit = moderate(&config(), &filters, Some(100), &vec![], "HTTPS://BIT.LY/A").unwrap();
    assert_eq!(hit.matched, "BIT.LY");
}

#[test]
fn first_matching_pattern_wins() {
    let filters = RegexFilters::new("bit\\.ly\n\nxyz\n").unwrap();
    let hit = moderate(&config(), &filters, Some(100), &vec![], "http://bit.ly/xyz").unwrap();
    assert_eq!(hit.rule_index, 0);
    assert_eq!(hit.rule, "bit\\.ly");

    let swapped = RegexFilters::new("xyz\nbit\\.ly").unwrap();
    let hit = moderate(&config(), &swapped, Some(100), &vec![], "http://bit.ly/xyz").unwrap();
    assert_eq!(hit.rule_index, 0);
    assert_eq!(hit.rule, "xyz");
    assert_eq!(hit.matched, "xyz");
}

#[test]
fn later_pattern_decides_when_earlier_does_not_match() {
    let filters = RegexFilters::new("nomatch\nxyz").unwrap();
    let hit = moderate(&config(), &filters, Some(100), &vec![], "http://bit.ly/xyz").unwrap();
    assert_eq!(hit.rule_index, 1);
}

#[test]
fn guild_outside_allow_list_is_never_filtered() {
    let filters = RegexFilters::new(".\nbit").unwrap();
    assert!(moderate(&config(), &filters, Some(101), &vec![], "http://bit.ly/xyz").is_none());
    assert!(moderate(&config(), &filters, None, &vec![], "http://bit.ly/xyz").is_none());
}

#[test]
fn bypass_role_is_never_filtered() {
    let filters = RegexFilters::new(".").unwrap();
    assert!(moderate(&config(), &filters, Some(100), &vec![3, 7], "http://bit.ly/xyz").is_none());
    assert!(!filters_apply(&config(), Some(100), &vec![7]));
    assert!(filters_apply(&config(), Some(100), &vec![8]));
}

#[test]
fn only_links_are_checked() {
    let filters = RegexFilters::new("secret").unwrap();
    assert!(moderate(&config(), &filters, Some(100), &vec![], "a secret word").is_none());
    let hit = moderate(&config(), &filters, Some(100), &vec![], "http://secret.io and https://b.c")
        .unwrap();
    assert_eq!(hit.candidates, "http://secret.io \nhttps://b.c");
}

#[test]
fn candidate_buffer_joins_links_by_newline() {
    let filters = RegexFilters::new("").unwrap();
    assert_eq!(filters.candidates("x http://a.b y https://c.d"), "http://a.b \nhttps://c.d");
    assert_eq!(filters.candidates("nothing"), "");
}

#[test]
fn invalid_denylist_line_fails() {
    assert!(RegexFilters::new("ok\n(unclosed").is_err());
}

#[test]
fn no_audit_without_log_channel() {
    let filters = RegexFilters::new("bit").unwrap();
    let mut c = config();
    c.blacklist_logs_channels = vec![(200, 1)];
    let hit = moderate(&c, &filters, Some(100), &vec![], "http://bit.ly").unwrap();
    assert!(audit_entry(&c, Some(100), &hit, 1, 2, "http://bit.ly").is_none());
}

#[test]
fn backticks_are_escaped() {
    assert_eq!(escape_backticks("a`b``"), "a\\`b\\`\\`");
    assert_eq!(escape_backticks(""), "");
}

#[test]
fn lines_split_at_newlines() {
    assert_eq!(lines_of("a\n\nb"), vec!["a".to_string(), "".to_string(), "b".to_string()]);
    assert_eq!(lines_of(""), vec!["".to_string()]);
    assert_eq!(join_with_newlines(&vec!["x".to_string(), "y".to_string()]), "x\ny");
}

#[test]
fn whitespace_only_denylist_lines_are_skipped() {
    let filters = RegexFilters::new("  \n\t\nnomatch").unwrap();
    assert!(moderate(&config(), &filters, Some(100), &vec![], "http://a.b and https://c.d").is_none());
}
