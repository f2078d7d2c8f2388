use rand::seq::SliceRandom;
use sargerust::mpq_loader::{MPQLoader, MPQType};
use std::cmp::Ordering;

#[test]
fn patch_version_sorting_order() {
    let mut unsorted = vec!["patch-1.mpq", "patch-a.mpq", "patch-9.mpq", "patch-z.mpq"];
    unsorted.sort_by(|a, b| MPQLoader::sorting_order(a, b));
    let expected = vec!["patch-z.mpq", "patch-a.mpq", "patch-9.mpq", "patch-1.mpq"];
    assert_eq!(unsorted, expected);
}

#[test]
fn common_version_ordering() {
    // technically there's only common.mpq and common-2.mpq, but test the ordering logic anyway
    let mut v = vec!["common-3.mpq", "common.mpq", "common-2.mpq"];
    v.sort_by(|a, b| MPQLoader::sorting_order(a, b));
    let expected = vec!["common.mpq", "common-2.mpq", "common-3.mpq"];
    assert_eq!(v, expected);
}

#[test]
fn type_recognition() {
    let types = vec![
        ("base.mpq", MPQType::Base),
        ("alternate.mpq", MPQType::Alternate),
        ("patch-x.mpq", MPQType::Patch),
        ("patch-enUS-x.mpq", MPQType::PatchLocalized),
        ("patch.mpq", MPQType::Patch),
        ("patch-enUS.mpq", MPQType::PatchLocalized),
        ("expansion.mpq", MPQType::Tbc),
        ("lichking.mpq", MPQType::Wotlk),
        ("common.mpq", MPQType::Common),
        ("locale-enUS.mpq", MPQType::Locale),
        ("speech-enUS.mpq", MPQType::Speech),
        ("expansion-locale-enUS.mpq", MPQType::TbcLocale),
        ("lichking-locale-enUS.mpq", MPQType::WotlkLocale),
        ("expansion-speech-enUS.mpq", MPQType::TbcSpeech),
        ("lichking-speech-enUS.mpq", MPQType::WotlkSpeech),
        ("unknown.mpq", MPQType::Unknown),
    ];

    for (filename, expected_type) in types {
        assert_eq!(
            MPQLoader::extract_mpq_type(filename),
            expected_type,
            "Failed to recognize type for {}",
            filename
        );
    }
}

#[test]
fn ordering_without_locale() {
    let expected = vec![
        "base.mpq",
        "alternate.mpq",
        "patch-3.mpq",
        "patch-2.mpq",
        "patch.mpq",
        "expansion.mpq",
        "lichking.mpq",
        "common.mpq",
        "common-2.mpq",
    ];
    let mut unsorted = expected.clone();
    unsorted.shuffle(&mut rand::rng());
    unsorted.sort_by(|a, b| MPQLoader::sorting_order(a, b));
    assert_eq!(unsorted, expected);
}

#[test]
fn ordering_with_locale() {
    let expected = vec![
        "base.mpq",
        "alternate.mpq",
        "patch-3.mpq",
        "patch-2.mpq",
        "patch-enUS-3.mpq",
        "patch-enUS-2.mpq",
        "patch.mpq",
        "patch-enUS.mpq",
        "expansion.mpq",
        "lichking.mpq",
        "common.mpq",
        "common-2.mpq",
        "locale-enUS.mpq",
        "speech-enUS.mpq",
        "expansion-locale-enUS.mpq",
        "lichking-locale-enUS.mpq",
        "expansion-speech-enUS.mpq",
        "lichking-speech-enUS.mpq",
    ];
    let mut unsorted = expected.clone();
    unsorted.shuffle(&mut rand::rng());

    unsorted.sort_by(|a, b| MPQLoader::sorting_order(a, b));
    assert_eq!(unsorted, expected);
}

#[test]
fn loader_orders_and_filters_archive_names() {
    let names = vec![
        "common-2.MPQ".to_string(),
        "readme.txt".to_string(),
        "patch.mpq".to_string(),
        "base.mpq".to_string(),
        "patch-2.mpq".to_string(),
        "locale-enUS.mpq".to_string(),
    ];
    let loader = MPQLoader::new("Data", names);
    assert_eq!(
        loader.archive_names(),
        &vec![
            "base.mpq".to_string(),
            "patch-2.mpq".to_string(),
            "patch.mpq".to_string(),
            "common-2.MPQ".to_string(),
            "locale-enUS.mpq".to_string(),
        ]
    );
}

#[test]
fn archive_order_is_reflexive_and_antisymmetric() {
    let names = ["base.mpq", "patch-3.mpq", "patch-enUS-2.mpq", "common-2.mpq", "speech-enUS.mpq"];
    for a in names {
        assert_eq!(MPQLoader::sorting_order(a, a), Ordering::Equal);
        for b in names {
            assert_eq!(MPQLoader::sorting_order(a, b), MPQLoader::sorting_order(b, a).reverse());
        }
    }
}

#[test]
fn versions_and_mpq_names() {
    assert_eq!(MPQLoader::extract_mpq_version("patch-7.mpq"), Some(b'7'));
    assert_eq!(MPQLoader::extract_mpq_version("patch-enUS-2.mpq"), Some(b'2'));
    assert_eq!(MPQLoader::extract_mpq_version("patch.mpq"), None);
    assert!(MPQLoader::is_mpq_name("Common.MpQ"));
    assert!(!MPQLoader::is_mpq_name("common.txt"));
    assert!(!MPQLoader::is_valid_archive_name("a.mpq"));
    assert!(MPQLoader::is_valid_archive_name("ab.mpq"));
}

#[test]
fn same_kind_without_versions_is_equal_and_versions_break_ties() {
    assert_eq!(MPQLoader::sort_by_version(None, None, MPQType::Patch, MPQType::Patch), Ordering::Equal);
    assert_eq!(MPQLoader::sort_by_version(Some(b'3'), None, MPQType::Patch, MPQType::Patch), Ordering::Less);
    assert_eq!(MPQLoader::sort_by_version(Some(b'3'), None, MPQType::Common, MPQType::Common), Ordering::Greater);
    assert_eq!(
        MPQLoader::sort_by_version(Some(b'2'), Some(b'3'), MPQType::Common, MPQType::Common),
        Ordering::Less
    );
    assert_eq!(
        MPQLoader::sort_by_version(Some(b'2'), Some(b'3'), MPQType::Patch, MPQType::Patch),
        Ordering::Greater
    );
    assert_eq!(MPQLoader::extract_from_dash_count("expansion-speech-enUS.mpq", 2), MPQType::TbcSpeech);
    assert_eq!(MPQLoader::extract_from_dash_count("expansion-x.mpq", 1), MPQType::Unknown);
}

#[test]
fn short_names_of_their_own_kind_are_ordered() {
    assert_eq!(MPQLoader::sorting_order("a.mpq", "common.mpq"), Ordering::Greater);
    assert_eq!(MPQLoader::sorting_order("a.mpq", "a.mpq"), Ordering::Equal);
    let names = vec!["a.mpq".to_string(), "common.mpq".to_string(), "base.mpq".to_string()];
    assert!(MPQLoader::names_sortable(&names));
    let loader = MPQLoader::new("Data", names);
    assert_eq!(loader.archive_names(), &vec!["base.mpq".to_string(), "common.mpq".to_string(), "a.mpq".to_string()]);
    // two unknown archives compare their versions, and "a.mpq" has none that can be read
    assert!(!MPQLoader::names_sortable(&vec!["a.mpq".to_string(), "b.mpq".to_string()]));
    assert!(MPQLoader::comparable_names("b.mpq", "common.mpq"));
    assert!(!MPQLoader::comparable_names("a.mpq", "b.mpq"));
}
