//! The stock checker: decides the current stock state from a fetched
//! page text and a per-site out-of-stock indicator.

use vstd::prelude::*;

use crate::text::contains_seq;
use crate::text::contains_substring;

verus! {

/// The view of an optional page text: the characters when a page was
/// fetched, nothing when the fetch failed.
pub open spec fn page_view(page_text: Option<&str>) -> Option<Seq<char>> {
    match page_text {
        Some(t) => Some(t@),
        None => None,
    }
}

/// Stock state read off a fetch outcome: a failed fetch counts as not
/// in stock (the conservative default), and a fetched page shows the
/// product in stock exactly when the indicator does not occur in it.
pub open spec fn spec_in_stock(page_text: Option<Seq<char>>, indicator: Seq<char>) -> bool {
    match page_text {
        Some(t) => !contains_seq(t, indicator),
        None => false,
    }
}

/// Determine the current stock state. `page_text` is `None` when the
/// fetch failed (network error, timeout, undecodable body); matching is
/// exact-substring, case-sensitive, with no HTML semantics.
pub fn is_in_stock(page_text: Option<&str>, indicator: &str) -> (r: bool)
    ensures
        r == spec_in_stock(page_view(page_text), indicator@),
{
    match page_text {
        Some(t) => !contains_substring(t, indicator),
        None => false,
    }
}

} // verus!
