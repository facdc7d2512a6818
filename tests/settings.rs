use std::sync::Arc;

use mothy::flags::{Feature, GuildFeatures, ModRolePermissions, TriggerContext};
use mothy::guild::{GuildRows, GuildSettings, RawGuild};
use mothy::pattern::{Pattern, PatternKind};
use mothy::settings::{
    colour_tiers, ColourMode, CotdRoleSettings, DecodeError, DmActivitySettings,
    IconPairingMode, RawCotdRoleSettings, RawDmActivitySettings, RawModRole, RawRegexTrigger,
    RawStickyRoleSettings, RegexTrigger, StickyRoleMode, TimeOfDay, TriggerMetadata,
};
use mothy::store::{GuildHandler, LoadError};
use mothy::text::truncate_convert;

const ALL: [Feature; 6] = [
    Feature::ExpressionTracking,
    Feature::DmActivity,
    Feature::Autoresponse,
    Feature::Automoderation,
    Feature::StickyRoles,
    Feature::ColourOfTheDay,
];

#[test]
fn feature_bits_round_trip_every_subset() {
    for subset in 0u8..64 {
        let mut features = GuildFeatures::empty();
        for (i, f) in ALL.iter().enumerate() {
            features.set(*f, subset & (1 << i) != 0);
        }
        let stored = features.bits() as i64;
        let decoded = GuildFeatures::from_bits_truncate(stored as u8);
        for (i, f) in ALL.iter().enumerate() {
            assert_eq!(decoded.contains(*f), subset & (1 << i) != 0);
        }
        assert_eq!(decoded.bits(), subset);
    }
}

#[test]
fn feature_bits_drop_unknown_bits() {
    let f = GuildFeatures::from_bits_truncate(0b1100_0001);
    assert_eq!(f.bits(), 1);
    assert!(f.contains(Feature::ExpressionTracking));
    assert!(!f.contains(Feature::ColourOfTheDay));
}

#[test]
fn feature_set_turns_one_flag_off() {
    let mut f = GuildFeatures::from_bits_truncate(0x3f);
    f.set(Feature::StickyRoles, false);
    assert_eq!(f.bits(), 0x2f);
    f.set(Feature::StickyRoles, true);
    assert_eq!(f.bits(), 0x3f);
}

#[test]
fn trigger_context_decode_keeps_low_two_bits() {
    let c = TriggerContext::decode(0x0107);
    assert_eq!(c.bits(), 3);
    assert!(c.text());
    assert!(c.ocr());
    let t = TriggerContext::decode(1);
    assert!(t.text());
    assert!(!t.ocr());
    assert_eq!(ModRolePermissions::from_bits_truncate(0xff).bits(), 1);
}

#[test]
fn prefix_is_truncated_to_six_bytes() {
    assert_eq!(truncate_convert::<6>("abcdefgh".to_string()).as_str(), "abcdef");
    assert_eq!(truncate_convert::<6>("ab".to_string()).as_str(), "ab");
    assert_eq!(truncate_convert::<6>("".to_string()).as_str(), "");
    // A two-byte character that would be split is left out.
    assert_eq!(truncate_convert::<6>("aaaaaé".to_string()).as_str(), "aaaaa");
    assert_eq!(truncate_convert::<6>("aaaaé!".to_string()).as_str(), "aaaaé");
}

#[test]
fn pattern_kind_follows_fancy_flag() {
    let simple = Pattern::compile(r"moth\d+", false, false).unwrap();
    assert_eq!(simple.kind(), PatternKind::Simple);
    assert!(simple.is_match("a moth42 flew"));
    assert!(!simple.is_match("a butterfly"));
    assert_eq!(simple.find("moth7 moth8").as_deref(), Some("moth7"));

    let fancy = Pattern::compile(r"\w+(?=!)", true, false).unwrap();
    assert_eq!(fancy.kind(), PatternKind::Fancy);
    assert_eq!(fancy.find("so fancy!").as_deref(), Some("fancy"));
    assert!(!fancy.is_match("not fancy"));
    assert_eq!(fancy.as_str(), r"\w+(?=!)");
}

#[test]
fn look_around_needs_the_fancy_engine() {
    assert!(Pattern::compile(r"\w+(?=!)", false, false).is_err());
    assert!(Pattern::compile("(unclosed", true, false).is_err());
}

#[test]
fn case_insensitive_pattern_ignores_case() {
    let p = Pattern::compile(r"bit\.ly", false, true).unwrap();
    assert_eq!(p.find("see BIT.LY/x").as_deref(), Some("BIT.LY"));
}

fn trigger_row(pattern: &str, fancy: bool) -> RawRegexTrigger {
    RawRegexTrigger {
        id: 7,
        channel_id: Some(-1),
        pattern: pattern.to_string(),
        trigger_context: 2,
        trigger_metadata: TriggerMetadata { text: Some("reply".to_string()) },
        is_recursive: true,
        is_enabled: false,
        is_fancy: fancy,
    }
}

#[test]
fn trigger_row_decodes() {
    let t = RegexTrigger::from_raw(&trigger_row("ab+c", false)).unwrap();
    assert_eq!(t.id, 7);
    assert_eq!(t.channel_id, Some(u64::MAX));
    assert_eq!(t.pattern.kind(), PatternKind::Simple);
    assert!(t.trigger_context.ocr());
    assert!(!t.trigger_context.text());
    assert_eq!(t.trigger_metadata.text.as_deref(), Some("reply"));
    assert!(t.is_recursive);
    assert!(!t.is_enabled);

    let f = RegexTrigger::from_raw(&trigger_row("a(?!b)", true)).unwrap();
    assert_eq!(f.pattern.kind(), PatternKind::Fancy);
}

#[test]
fn invalid_trigger_pattern_is_a_decode_error() {
    assert!(matches!(
        RegexTrigger::from_raw(&trigger_row("[", false)),
        Err(DecodeError::Pattern(_))
    ));
}

fn cotd_row(colours: &str) -> RawCotdRoleSettings {
    RawCotdRoleSettings {
        role_id: 42,
        is_enabled: true,
        suffix_enabled: false,
        colour_mode: ColourMode::Static,
        icon_pairing_mode: IconPairingMode::Paired,
        colours: colours.to_string(),
        icons: vec!["a.svg".to_string(), "b.svg".to_string()],
        svg_target_colour: Some(-1),
        rotation_time: TimeOfDay::from_hms_nano(12, 30, 0, 0).unwrap(),
    }
}

#[test]
fn cotd_one_colour_gives_primary_only() {
    let c = CotdRoleSettings::from_raw(&cotd_row("[[16711680]]")).unwrap();
    assert_eq!(c.colours.len(), 1);
    assert_eq!(c.colours[0].primary_colour, 0xFF0000);
    assert_eq!(c.colours[0].secondary_colour, None);
    assert_eq!(c.colours[0].tertiary_colour, None);
    assert_eq!(c.role_id, 42);
    assert_eq!(c.icons, vec!["a.svg".to_string(), "b.svg".to_string()]);
    assert_eq!(c.svg_target_colour, Some(u32::MAX));
    assert_eq!(c.rotation_time.hour, 12);
}

#[test]
fn cotd_three_colours_fill_all_tiers() {
    let c = CotdRoleSettings::from_raw(&cotd_row("[[16711680,65280,255]]")).unwrap();
    assert_eq!(c.colours[0].primary_colour, 0xFF0000);
    assert_eq!(c.colours[0].secondary_colour, Some(0x00FF00));
    assert_eq!(c.colours[0].tertiary_colour, Some(0x0000FF));
}

#[test]
fn cotd_empty_tier_is_a_decode_error() {
    assert!(matches!(
        CotdRoleSettings::from_raw(&cotd_row("[[]]")),
        Err(DecodeError::EmptyColourTier)
    ));
    assert!(matches!(
        CotdRoleSettings::from_raw(&cotd_row("[]")),
        Err(DecodeError::NoColours)
    ));
    assert!(matches!(
        CotdRoleSettings::from_raw(&cotd_row("[[\"red\"]]")),
        Err(DecodeError::ColourJson(_))
    ));
}

#[test]
fn colour_tiers_ignore_extra_entries() {
    let tiers = colour_tiers(&vec![vec![1, 2, 3, 4], vec![5, 6]]).unwrap();
    assert_eq!(tiers.len(), 2);
    assert_eq!(tiers[0].tertiary_colour, Some(3));
    assert_eq!(tiers[1].secondary_colour, Some(6));
    assert_eq!(tiers[1].tertiary_colour, None);
}

#[test]
fn time_of_day_rejects_out_of_range() {
    assert!(TimeOfDay::from_hms_nano(24, 0, 0, 0).is_none());
    assert!(TimeOfDay::from_hms_nano(23, 59, 59, 999_999_999).is_some());
}

#[test]
fn dm_activity_default_and_decode() {
    let d = DmActivitySettings::default();
    assert_eq!(d.cooldown_seconds, 3600);
    assert_eq!(d.announce_channel_id, None);
    assert_eq!(d.retention_days, None);
    let raw = RawDmActivitySettings {
        cooldown_seconds: 60,
        announce_channel_id: Some(99),
        retention_days: Some(300),
    };
    let d = DmActivitySettings::from_raw(&raw);
    assert_eq!(d.cooldown_seconds, 60);
    assert_eq!(d.announce_channel_id, Some(99));
    assert_eq!(d.retention_days, Some(44));
}

fn rows(triggers: Vec<RawRegexTrigger>, cotd: Vec<RawCotdRoleSettings>) -> GuildRows {
    GuildRows {
        guild: RawGuild {
            prefix: Some("toolongprefix".to_string()),
            feature_flags: 0x1_21,
            rejoined: true,
            banned: false,
        },
        dm_activity: None,
        regex_triggers: triggers,
        regex_denylist: vec![],
        sticky_roles: Some(RawStickyRoleSettings {
            allowlist_roles: vec![1, 2],
            denylist_roles: vec![-2],
            mode: StickyRoleMode::Denylist,
            is_enabled: true,
        }),
        cotd,
        mod_roles: vec![RawModRole { role_id: 5, permissions: 3 }],
    }
}

#[test]
fn assemble_decodes_every_part() {
    let s = GuildSettings::assemble(&rows(
        vec![trigger_row("x", false)],
        vec![cotd_row("[[1]]")],
    ))
    .unwrap();
    assert_eq!(s.prefix.as_ref().map(|p| p.to_string()).as_deref(), Some("toolon"));
    assert_eq!(s.features.bits(), 0x21);
    assert!(s.rejoined);
    assert!(!s.banned);
    assert_eq!(s.regex_triggers.len(), 1);
    assert_eq!(s.cotd_settings.len(), 1);
    assert_eq!(s.sticky_role_settings.allowlist_roles, vec![1, 2]);
    assert_eq!(s.sticky_role_settings.denylist_roles, vec![u64::MAX - 1]);
    assert_eq!(s.sticky_role_settings.mode, StickyRoleMode::Denylist);
    assert_eq!(s.dm_activity_settings.cooldown_seconds, 3600);
    assert_eq!(s.mod_roles[0].role_id, 5);
    assert_eq!(s.mod_roles[0].permissions.bits(), 1);
}

#[test]
fn guild_without_primary_row_gets_default_settings() {
    let mut handler = GuildHandler::new();
    let s = handler.load(10, Ok(None)).unwrap();
    assert!(!s.banned);
    assert!(!s.rejoined);
    assert!(s.prefix.is_none());
    assert_eq!(s.features.bits(), 0);
    assert!(s.regex_triggers.is_empty());
    assert!(s.regex_denylist.is_empty());
    assert!(s.mod_roles.is_empty());
    assert!(s.cotd_settings.is_empty());
    assert!(s.sticky_role_settings.allowlist_roles.is_empty());
    assert_eq!(s.sticky_role_settings.mode, StickyRoleMode::Off);
    assert!(!s.sticky_role_settings.is_enabled);
    assert_eq!(s.dm_activity_settings.cooldown_seconds, 3600);
}

#[test]
fn second_lookup_returns_the_same_shared_snapshot() {
    let mut handler = GuildHandler::new();
    assert!(handler.cached(3).is_none());
    let loaded = handler.load(3, Ok(Some(rows(vec![], vec![])))).unwrap();
    let first = handler.cached(3).unwrap();
    let second = handler.cached(3).unwrap();
    assert!(Arc::ptr_eq(&loaded, &first));
    assert!(Arc::ptr_eq(&first, &second));
    assert!(handler.cached(4).is_none());
}

#[test]
fn storage_error_is_handed_on_and_not_cached() {
    let mut handler = GuildHandler::new();
    match handler.load(8, Err("connection refused".to_string())) {
        Err(LoadError::Storage(m)) => assert_eq!(m, "connection refused"),
        _ => panic!("expected a storage error"),
    }
    assert!(handler.cached(8).is_none());
}

#[test]
fn decode_error_fails_the_load_and_is_not_cached() {
    let mut handler = GuildHandler::new();
    let r = handler.load(9, Ok(Some(rows(vec![trigger_row("(", false)], vec![]))));
    assert!(matches!(r, Err(LoadError::Decode(DecodeError::Pattern(_)))));
    let r = handler.load(9, Ok(Some(rows(vec![], vec![cotd_row("[[]]")]))));
    assert!(matches!(r, Err(LoadError::Decode(DecodeError::EmptyColourTier))));
    assert!(handler.cached(9).is_none());
}

#[test]
fn a_new_load_replaces_the_cached_snapshot() {
    let mut handler = GuildHandler::new();
    let a = handler.load(1, Ok(None)).unwrap();
    let b = handler.load(1, Ok(Some(rows(vec![], vec![])))).unwrap();
    let now = handler.cached(1).unwrap();
    assert!(Arc::ptr_eq(&now, &b));
    assert!(!Arc::ptr_eq(&now, &a));
}
