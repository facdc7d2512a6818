use mothy::events::{
    ansi_colour, attachments_embed_fmt, get_member_joined_at, highest_coloured_role,
    image_spam_suspected,
    truncate_datetime_string, DateParts, RoleInfo,
};
use mothy::moths::{
    find_species, is_butterfly_search, next_page, page_bounds, page_count, search_moths,
    sort_by_name, Classification, MothSearch, PageButton, SpeciesData,
};
use mothy::text::{contains_str, join};
use mothy::zstd::{decode_zstd, ZstdError};

#[test]
fn attachment_and_embed_summary() {
    let names = vec!["a.png".to_string(), "b.txt".to_string()];
    let kinds = vec!["rich".to_string()];
    let (a, e) = attachments_embed_fmt(&names, &kinds);
    assert_eq!(a.as_deref(), Some(" <a.png, b.txt>"));
    assert_eq!(e.as_deref(), Some(" {rich}"));
    assert_eq!(attachments_embed_fmt(&vec![], &vec![]), (None, None));
}

#[test]
fn image_spam_needs_three_images_and_nothing_else() {
    let img = |t: &str| Some(t.to_string());
    assert!(image_spam_suspected(&vec![img("image/png"), img("image/jpeg"), img("image/gif")]));
    assert!(!image_spam_suspected(&vec![img("image/png"), img("image/png")]));
    assert!(!image_spam_suspected(&vec![
        img("image/png"),
        img("image/png"),
        img("image/png"),
        img("text/plain")
    ]));
    assert!(image_spam_suspected(&vec![img("image/png"), None, img("image/png"), img("image/png")]));
}

#[test]
fn highest_coloured_role_wins() {
    let roles = vec![
        RoleInfo { id: 5, position: 3, colour: 0xff0000 },
        RoleInfo { id: 9, position: 8, colour: 0 },
        RoleInfo { id: 4, position: 3, colour: 0x00ff00 },
        RoleInfo { id: 6, position: 2, colour: 0x0000ff },
    ];
    assert_eq!(highest_coloured_role(&roles), Some(2));
    assert_eq!(highest_coloured_role(&vec![RoleInfo { id: 1, position: 1, colour: 0 }]), None);
    assert_eq!(ansi_colour(0x102030), "\x1B[38;2;16;32;48m");
}

#[test]
fn account_age_keeps_three_largest_parts() {
    let p = DateParts { year: 2, month: 3, day: 4, hour: 5, minute: 6, second: 7 };
    assert_eq!(truncate_datetime_string(p), "Years 2, Months 3, Days 4");
    let q = DateParts { year: 0, month: 0, day: 0, hour: 0, minute: 6, second: 7 };
    assert_eq!(truncate_datetime_string(q), "Minutes 6, Seconds 7");
    let z = DateParts { year: 0, month: 0, day: 0, hour: 0, minute: 0, second: 0 };
    assert_eq!(truncate_datetime_string(z), "");
}

#[test]
fn substring_and_join() {
    assert!(contains_str("image/png", "image"));
    assert!(!contains_str("imag", "image"));
    assert!(contains_str("abc", ""));
    assert_eq!(join(&vec!["a".to_string(), "b".to_string()], ", "), "a, b");
    assert_eq!(join(&vec![], ", "), "");
}

fn species(genus: &str, epithet: &str, family: &str) -> SpeciesData {
    SpeciesData {
        classification: Classification {
            superfamily: Some("Noctuoidea".to_string()),
            family: Some(family.to_string()),
            subfamily: None,
            tribe: None,
            subtribe: None,
            genus: genus.to_string(),
            epithet: epithet.to_string(),
        },
        catalogue_of_life_taxon_id: "X".to_string(),
    }
}

fn search() -> MothSearch {
    MothSearch {
        superfamily: None,
        family: Some("Noctuidae".to_string()),
        subfamily: None,
        tribe: None,
        subtribe: None,
        genus: None,
        epithet: None,
    }
}

#[test]
fn wide_search_filters_and_sorts() {
    let moths = vec![
        species("Noctua", "pronuba", "Noctuidae"),
        species("Catocala", "nupta", "Erebidae"),
        species("Agrotis", "ipsilon", "Noctuidae"),
    ];
    let found = search_moths(&moths, &search());
    assert_eq!(found, vec![0, 2]);
    assert_eq!(sort_by_name(&moths, &found), vec![2, 0]);
    assert_eq!(find_species(&moths, "CATOCALA", "Nupta"), Some(1));
    assert_eq!(find_species(&moths, "Catocala", "fraxini"), None);
}

#[test]
fn pages_of_results() {
    assert_eq!(page_count(0), 0);
    assert_eq!(page_count(10), 1);
    assert_eq!(page_count(11), 2);
    assert_eq!(page_bounds(1, 15), (10, 15));
    assert_eq!(page_bounds(0, 15), (0, 10));
    assert_eq!(next_page(0, 3, PageButton::Back), None);
    assert_eq!(next_page(0, 3, PageButton::Last), Some(2));
    assert_eq!(next_page(2, 3, PageButton::Forward), None);
    assert_eq!(next_page(1, 3, PageButton::First), Some(0));
    assert_eq!(next_page(0, 0, PageButton::Forward), None);
}

#[test]
fn butterfly_search_is_refused_in_any_case() {
    assert!(is_butterfly_search(&Some("PAPILIONOIDEA".to_string())));
    assert!(!is_butterfly_search(&Some("Noctuoidea".to_string())));
    assert!(!is_butterfly_search(&None));
}

#[test]
fn zstd_round_trip() {
    let text = b"moth data moth data moth data".to_vec();
    let mut compressed = vec![0u8; zstd_safe::compress_bound(text.len())];
    let n = zstd_safe::compress(&mut compressed[..], &text, 3).unwrap();
    compressed.truncate(n);
    assert_eq!(decode_zstd(&compressed).unwrap(), text);
    assert!(matches!(decode_zstd(b"not zstd"), Err(ZstdError::Bound(_))));
}

#[test]
fn account_age_from_timestamps() {
    let day = 86_400;
    assert_eq!(get_member_joined_at(1_000 + 400 * day, 1_000).as_deref(), Some("Years 1, Months 2, Days 5"));
    assert_eq!(get_member_joined_at(5, 5).as_deref(), Some("Months 1, Days 1"));
    assert_eq!(get_member_joined_at(i64::MAX, -10), None);
}
