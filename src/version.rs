use crate::instant::{last_instant_of_month, utc_now, UtcDateTime};
use vstd::prelude::*;

verus! {

/// The released versions of the platform's API, and the unstable channel.
#[derive(Clone, Copy, Debug, PartialEq, Eq, Structural)]
pub enum ShopifyAPIVersion {
    /// Deprecated
    V2021_10,
    /// Will be deprecated soon
    V2022_01,
    V2022_04,
    V2022_07,
    /// Latest stable version
    V2022_10,
    /// Release candidate
    V2023_01,
    Unstable,
}

/// Year and month of a released version; `None` for the unstable channel.
pub open spec fn release_of(v: ShopifyAPIVersion) -> Option<(int, int)> {
    match v {
        ShopifyAPIVersion::V2021_10 => Some((2021, 10)),
        ShopifyAPIVersion::V2022_01 => Some((2022, 1)),
        ShopifyAPIVersion::V2022_04 => Some((2022, 4)),
        ShopifyAPIVersion::V2022_07 => Some((2022, 7)),
        ShopifyAPIVersion::V2022_10 => Some((2022, 10)),
        ShopifyAPIVersion::V2023_01 => Some((2023, 1)),
        ShopifyAPIVersion::Unstable => None,
    }
}

/// The canonical tag of a version: "YYYY-MM", or "unstable".
pub open spec fn version_tag(v: ShopifyAPIVersion) -> Seq<char> {
    match v {
        ShopifyAPIVersion::V2021_10 => "2021-10"@,
        ShopifyAPIVersion::V2022_01 => "2022-01"@,
        ShopifyAPIVersion::V2022_04 => "2022-04"@,
        ShopifyAPIVersion::V2022_07 => "2022-07"@,
        ShopifyAPIVersion::V2022_10 => "2022-10"@,
        ShopifyAPIVersion::V2023_01 => "2023-01"@,
        ShopifyAPIVersion::Unstable => "unstable"@,
    }
}

/// Far-future instant that stands for "never deprecated": 9999-12-31T23:59:59Z.
pub open spec fn unstable_end_of_support() -> UtcDateTime {
    UtcDateTime { year: 9999, month: 12, day: 31, hour: 23, minute: 59, second: 59 }
}

/// The last instant at which a version is supported: the last second of its
/// release month, or the far-future sentinel for the unstable channel.
pub open spec fn end_of_support(v: ShopifyAPIVersion) -> UtcDateTime {
    match release_of(v) {
        Some((year, month)) => last_instant_of_month(year, month),
        None => unstable_end_of_support(),
    }
}

/// The release year and month of a version, from the version table.
pub fn release_month(v: &ShopifyAPIVersion) -> (r: Option<(i32, u32)>)
    ensures
        match r {
            Some((year, month)) => release_of(*v) == Some((year as int, month as int)) && 1
                <= month <= 12,
            None => release_of(*v) is None,
        },
{
    match v {
        ShopifyAPIVersion::V2021_10 => Some((2021, 10)),
        ShopifyAPIVersion::V2022_01 => Some((2022, 1)),
        ShopifyAPIVersion::V2022_04 => Some((2022, 4)),
        ShopifyAPIVersion::V2022_07 => Some((2022, 7)),
        ShopifyAPIVersion::V2022_10 => Some((2022, 10)),
        ShopifyAPIVersion::V2023_01 => Some((2023, 1)),
        ShopifyAPIVersion::Unstable => None,
    }
}

/// Get the end of support date for a given API version.
pub fn get_end_of_support_date(api_version: &ShopifyAPIVersion) -> (r: UtcDateTime)
    ensures
        r == end_of_support(*api_version),
        r.is_valid(),
{
    match release_month(api_version) {
        Some((year, month)) => UtcDateTime::end_of_month(year, month),
        None => UtcDateTime { year: 9999, month: 12, day: 31, hour: 23, minute: 59, second: 59 },
    }
}

/// Whether a version is past its end of support at the instant `now`.
pub fn is_deprecated_at(api_version: &ShopifyAPIVersion, now: &UtcDateTime) -> (r: bool)
    ensures
        r == now.later_than(end_of_support(*api_version)),
{
    let max_date = get_end_of_support_date(api_version);
    now.is_later_than(&max_date)
}

/// Check if a given API version is deprecated because it is not supported
/// anymore, against the current time of the system clock.
pub fn is_deprecated(api_version: &ShopifyAPIVersion) -> (r: bool)
    ensures
        exists|now: UtcDateTime|
            {
                &&& 1 <= now.month <= 12
                &&& 1 <= now.day <= 31
                &&& now.hour < 24
                &&& now.minute < 60
                &&& now.second < 60
                &&& r == now.later_than(end_of_support(*api_version))
            },
{
    let now = utc_now();
    is_deprecated_at(api_version, &now)
}

/// Transform the enum type of the API version to a string.
pub fn api_version_to_string(api_version: &ShopifyAPIVersion) -> (r: String)
    ensures
        r@ == version_tag(*api_version),
{
    match api_version {
        ShopifyAPIVersion::V2021_10 => "2021-10".to_owned(),
        ShopifyAPIVersion::V2022_01 => "2022-01".to_owned(),
        ShopifyAPIVersion::V2022_04 => "2022-04".to_owned(),
        ShopifyAPIVersion::V2022_07 => "2022-07".to_owned(),
        ShopifyAPIVersion::V2022_10 => "2022-10".to_owned(),
        ShopifyAPIVersion::V2023_01 => "2023-01".to_owned(),
        ShopifyAPIVersion::Unstable => "unstable".to_owned(),
    }
}

/// Distinct versions have distinct tags, every tag is non-empty, and the
/// unstable channel's tag is exactly "unstable".
pub proof fn lemma_version_tags_unique(a: ShopifyAPIVersion, b: ShopifyAPIVersion)
    ensures
        version_tag(a).len() > 0,
        a != b ==> version_tag(a) != version_tag(b),
        version_tag(ShopifyAPIVersion::Unstable) == "unstable"@,
{
    reveal_strlit("2021-10");
    reveal_strlit("2022-01");
    reveal_strlit("2022-04");
    reveal_strlit("2022-07");
    reveal_strlit("2022-10");
    reveal_strlit("2023-01");
    reveal_strlit("unstable");
    if version_tag(a) == version_tag(b) {
        assert(version_tag(a)[3] == version_tag(b)[3]);
        assert(version_tag(a)[6] == version_tag(b)[6]);
    }
}

/// A released version's end of support lies in its release month and is a
/// valid instant that no valid instant of that month comes after.
pub proof fn lemma_end_of_support_is_last_instant_of_month(v: ShopifyAPIVersion, t: UtcDateTime)
    requires
        release_of(v) is Some,
        t.is_valid(),
        t.year == release_of(v)->Some_0.0,
        t.month == release_of(v)->Some_0.1,
    ensures
        end_of_support(v).year == release_of(v)->Some_0.0,
        end_of_support(v).month == release_of(v)->Some_0.1,
        end_of_support(v).is_valid(),
        !t.later_than(end_of_support(v)),
{
}

/// The unstable channel is never deprecated at any valid instant up to the
/// end of year 9999.
pub proof fn lemma_unstable_never_deprecated(now: UtcDateTime)
    requires
        now.is_valid(),
        now.year <= 9999,
    ensures
        !now.later_than(end_of_support(ShopifyAPIVersion::Unstable)),
{
}

} // verus!
