use shopify_api::{
    api_version_to_string, get_end_of_support_date, is_deprecated, is_deprecated_at,
    last_day_of_month, release_month, ShopifyAPIVersion, UtcDateTime,
};

const ALL: [ShopifyAPIVersion; 7] = [
    ShopifyAPIVersion::V2021_10,
    ShopifyAPIVersion::V2022_01,
    ShopifyAPIVersion::V2022_04,
    ShopifyAPIVersion::V2022_07,
    ShopifyAPIVersion::V2022_10,
    ShopifyAPIVersion::V2023_01,
    ShopifyAPIVersion::Unstable,
];

fn at(year: i32, month: u32, day: u32, hour: u32, minute: u32, second: u32) -> UtcDateTime {
    UtcDateTime { year, month, day, hour, minute, second }
}

#[test]
fn version_tag_of_2021_10() {
    assert_eq!(api_version_to_string(&ShopifyAPIVersion::V2021_10), "2021-10");
}

#[test]
fn version_tags_of_every_version() {
    let tags: Vec<String> = ALL.iter().map(api_version_to_string).collect();
    assert_eq!(
        tags,
        vec!["2021-10", "2022-01", "2022-04", "2022-07", "2022-10", "2023-01", "unstable"]
    );
}

#[test]
fn version_tags_are_unique_and_non_empty() {
    for (i, a) in ALL.iter().enumerate() {
        assert!(!api_version_to_string(a).is_empty());
        for b in ALL.iter().skip(i + 1) {
            assert_ne!(api_version_to_string(a), api_version_to_string(b));
        }
    }
    assert_eq!(api_version_to_string(&ShopifyAPIVersion::Unstable), "unstable");
}

#[test]
fn end_of_support_of_2023_01() {
    assert_eq!(
        get_end_of_support_date(&ShopifyAPIVersion::V2023_01),
        at(2023, 1, 31, 23, 59, 59)
    );
}

#[test]
fn end_of_support_of_every_version() {
    let expected = [
        at(2021, 10, 31, 23, 59, 59),
        at(2022, 1, 31, 23, 59, 59),
        at(2022, 4, 30, 23, 59, 59),
        at(2022, 7, 31, 23, 59, 59),
        at(2022, 10, 31, 23, 59, 59),
        at(2023, 1, 31, 23, 59, 59),
        at(9999, 12, 31, 23, 59, 59),
    ];
    for (v, e) in ALL.iter().zip(expected.iter()) {
        assert_eq!(get_end_of_support_date(v), *e);
    }
}

#[test]
fn release_months_of_the_table() {
    assert_eq!(release_month(&ShopifyAPIVersion::V2022_07), Some((2022, 7)));
    assert_eq!(release_month(&ShopifyAPIVersion::Unstable), None);
}

#[test]
fn last_day_of_month_follows_leap_years() {
    assert_eq!(last_day_of_month(2024, 2), 29);
    assert_eq!(last_day_of_month(2023, 2), 28);
    assert_eq!(last_day_of_month(1900, 2), 28);
    assert_eq!(last_day_of_month(2000, 2), 29);
    assert_eq!(last_day_of_month(2022, 4), 30);
    assert_eq!(last_day_of_month(2022, 12), 31);
}

#[test]
fn end_of_month_is_last_second() {
    assert_eq!(UtcDateTime::end_of_month(2024, 2), at(2024, 2, 29, 23, 59, 59));
    assert_eq!(UtcDateTime::end_of_month(2022, 11), at(2022, 11, 30, 23, 59, 59));
}

#[test]
fn later_than_compares_field_by_field() {
    assert!(at(2023, 1, 1, 0, 0, 0).is_later_than(&at(2022, 12, 31, 23, 59, 59)));
    assert!(!at(2022, 12, 31, 23, 59, 59).is_later_than(&at(2023, 1, 1, 0, 0, 0)));
    assert!(at(2022, 5, 1, 0, 0, 1).is_later_than(&at(2022, 5, 1, 0, 0, 0)));
    assert!(!at(2022, 5, 1, 0, 0, 0).is_later_than(&at(2022, 5, 1, 0, 0, 0)));
}

#[test]
fn deprecated_only_after_end_of_support() {
    let v = ShopifyAPIVersion::V2022_04;
    assert!(!is_deprecated_at(&v, &at(2022, 4, 30, 23, 59, 59)));
    assert!(is_deprecated_at(&v, &at(2022, 5, 1, 0, 0, 0)));
    assert!(!is_deprecated_at(&v, &at(2022, 1, 15, 12, 0, 0)));
}

#[test]
fn unstable_is_not_deprecated_at_the_end_of_9999() {
    let v = ShopifyAPIVersion::Unstable;
    assert!(!is_deprecated_at(&v, &at(9999, 12, 31, 23, 59, 59)));
    assert!(!is_deprecated_at(&v, &at(2030, 6, 1, 0, 0, 0)));
    assert!(is_deprecated_at(&v, &at(10000, 1, 1, 0, 0, 0)));
}

#[test]
fn deprecation_against_the_system_clock() {
    assert!(is_deprecated(&ShopifyAPIVersion::V2021_10));
    assert!(!is_deprecated(&ShopifyAPIVersion::Unstable));
}
