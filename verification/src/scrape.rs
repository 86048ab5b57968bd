//! The decision half of the web scraper: fetching is I/O and lives
//! outside the library; whether a fetched page is an interstitial
//! challenge that warrants one delayed retry is decided here.

use vstd::prelude::*;
use crate::text::{spec_contains, str_contains};

verus! {

/// The web scraper's decision logic.
pub struct Scrapper;

impl Scrapper {
    /// Whether fetched HTML looks like a bot-check interstitial rather
    /// than the page itself, in which case the fetch is retried once
    /// after a pause.
    pub fn needs_retry(html: &str) -> (r: bool)
        ensures
            r == (spec_contains(html@, "checking your browser"@)
                || spec_contains(html@, "cloudflare"@)
                || spec_contains(html@, "Please wait"@)
                || spec_contains(html@, "ray id"@)),
    {
        str_contains(html, "checking your browser")
            || str_contains(html, "cloudflare")
            || str_contains(html, "Please wait")
            || str_contains(html, "ray id")
    }
}

} // verus!
