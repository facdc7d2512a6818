use mothy::commands::{commands, try_strip_prefix};
use mothy::moths::{get_moth_rank_vec, is_butterfly, search_classification_valid, ButterflyBlacklist};
use mothy::pattern::Pattern;
use mothy::scores::{
    format_duration_secs, format_mods_string, format_score_date, format_score_rank, game_version,
    Mod,
};
use mothy::text::decimal;
use mothy::utility::{fix_patch, hex_to_rgba, inflate_links, vec_u8_to_u16_le, CommandData, HexColourError, PatchError};

fn mods(list: &[&str]) -> Vec<Mod> {
    list.iter().map(|a| Mod { acronym: a.to_string() }).collect()
}

#[test]
fn game_version_from_classic_mod() {
    assert_eq!(game_version(&mods(&["HD", "CL"])), "Stable");
    assert_eq!(game_version(&mods(&["HD"])), "Lazer");
    assert_eq!(game_version(&mods(&[])), "Lazer");
}

#[test]
fn mods_string() {
    assert_eq!(format_mods_string(&mods(&[]), &"Lazer".to_string()), "NM");
    assert_eq!(format_mods_string(&mods(&["CL"]), &"Stable".to_string()), "NM");
    assert_eq!(format_mods_string(&mods(&["HD", "CL", "DT"]), &"Stable".to_string()), "+HDDT");
    assert_eq!(format_mods_string(&mods(&["HR"]), &"Lazer".to_string()), "+HR");
}

#[test]
fn score_date_and_rank() {
    assert_eq!(format_score_date("2024-01-02T03:04:05Z".to_string()), "2024-01-02 03:04:05");
    assert_eq!(format_score_rank("XH".to_string()), "SS");
    assert_eq!(format_score_rank("SH".to_string()), "S");
    assert_eq!(format_score_rank("A".to_string()), "A");
}

#[test]
fn duration_text() {
    assert_eq!(format_duration_secs(0), "0:0");
    assert_eq!(format_duration_secs(125), "2:5");
    assert_eq!(format_duration_secs(3600), "0:0");
    assert_eq!(format_duration_secs(3725), "1:2:5");
    assert_eq!(decimal(u64::MAX), u64::MAX.to_string());
}

#[test]
fn command_names_in_dev_builds() {
    let names = vec!["moth".to_string(), "hex".to_string()];
    assert_eq!(commands(&names, false), names);
    assert_eq!(commands(&names, true), vec!["dev-moth".to_string(), "dev-hex".to_string()]);
}

#[test]
fn prefix_stripping() {
    assert_eq!(
        try_strip_prefix("!!ping", Some("!!")),
        Some(("!!".to_string(), "ping".to_string()))
    );
    assert_eq!(
        try_strip_prefix("mping", Some("!!")),
        Some(("m".to_string(), "ping".to_string()))
    );
    assert_eq!(try_strip_prefix("ping", None), None);
    assert_eq!(try_strip_prefix("m", None), Some(("m".to_string(), "".to_string())));
}

#[test]
fn moth_ranks_skip_missing() {
    let v = vec![Some("Noctuidae".to_string()), None, Some("Agrotis".to_string())];
    assert_eq!(get_moth_rank_vec(&v), vec!["Noctuidae".to_string(), "Agrotis".to_string()]);
}

#[test]
fn classification_search() {
    let some = |s: &str| Some(s.to_string());
    assert!(search_classification_valid(&None, &some("x")));
    assert!(search_classification_valid(&some("NOCTUIDAE"), &some("Noctuidae")));
    assert!(!search_classification_valid(&some("Noctuidae"), &some("Erebidae")));
    assert!(!search_classification_valid(&some("Noctuidae"), &None));
}

#[test]
fn butterflies_are_recognised() {
    let list = ButterflyBlacklist {
        families: vec!["nymphalidae".to_string()],
        subfamilies: vec![],
        tribes: vec![],
        subtribes: vec![],
        genera: vec!["pieris".to_string()],
        epithets: vec![],
    };
    let s = |x: &str| Some(x.to_string());
    assert!(is_butterfly(&list, &s("Papilionoidea"), &None, &None, &None, &None, &None, &None));
    assert!(is_butterfly(&list, &None, &s("Nymphalidae"), &None, &None, &None, &None, &None));
    assert!(is_butterfly(&list, &None, &None, &None, &None, &None, &s("PIERIS"), &None));
    assert!(!is_butterfly(&list, &s("Noctuoidea"), &s("Noctuidae"), &None, &None, &None, &None, &None));
}

#[test]
fn hex_colours() {
    assert_eq!(hex_to_rgba("#FC0"), Ok([0xFF, 0xCC, 0x00, 0xFF]));
    assert_eq!(hex_to_rgba("0xFFCC00"), Ok([0xFF, 0xCC, 0x00, 0xFF]));
    assert_eq!(hex_to_rgba("ffcc0080"), Ok([0xFF, 0xCC, 0x00, 0x80]));
    assert_eq!(hex_to_rgba("#1234"), Ok([0x11, 0x22, 0x33, 0x44]));
    assert_eq!(hex_to_rgba("12"), Ok([0x12, 0x00, 0x00, 0xFF]));
    assert_eq!(hex_to_rgba("aabbccddee"), Ok([0xAA, 0xBB, 0xCC, 0xDD]));
    assert_eq!(hex_to_rgba("zz0000"), Err(HexColourError::InvalidDigit));
    assert_eq!(hex_to_rgba("#é"), Err(HexColourError::NotAscii));
}

#[test]
fn patch_is_read_as_utf16() {
    let bytes: Vec<u8> = "a\r\nb".encode_utf16().flat_map(|u| u.to_le_bytes()).collect();
    assert_eq!(fix_patch(bytes).unwrap(), "a\nb");
    assert!(matches!(fix_patch(vec![1, 2, 3]), Err(PatchError::OddLength)));
    assert!(matches!(fix_patch(vec![0x00, 0xD8]), Err(PatchError::InvalidUtf16(_))));
    assert_eq!(vec_u8_to_u16_le(vec![0x34, 0x12, 0xFF, 0x00]), vec![0x1234, 0x00FF]);
}

#[test]
fn bracketed_terms_become_links() {
    let data = CommandData {
        urban_link_finder_regex: Pattern::compile(r"\[([^\]]+)\]", false, false).unwrap(),
        urban_link_replacement: "[$1](https://example.org/define?term=$1)".to_string(),
    };
    assert_eq!(
        inflate_links(&data, "a [moth] b"),
        "a [moth](https://example.org/define?term=moth) b"
    );
    assert_eq!(inflate_links(&data, "plain"), "plain");
}
