//! Client configuration for a shop platform's HTTP API: a registry of API
//! versions with their tags and end-of-support instants, and a descriptor
//! that holds a shop's credentials and base URLs.
mod client;
mod instant;
mod version;

pub use client::{
    lemma_api_key_update_keeps_shop, query_url_for, rest_url_for, Shopify, ShopifyView,
    SET_API_KEY_EMPTY_ERROR,
};
pub use instant::{
    days_in_month, is_leap_year, last_day_of_month, last_instant_of_month, UtcDateTime,
};
pub use version::{
    api_version_to_string, end_of_support, get_end_of_support_date, is_deprecated,
    is_deprecated_at, lemma_end_of_support_is_last_instant_of_month,
    lemma_unstable_never_deprecated, lemma_version_tags_unique, release_month, version_tag,
    ShopifyAPIVersion,
};
