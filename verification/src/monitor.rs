//! The decisions of one monitor cycle. The surrounding application
//! runs the loop — fetch, sleep, deliver — and hands the fetch outcome
//! in here; this function decides the new state and whether to notify.

use vstd::prelude::*;

use crate::checker::page_view;
use crate::checker::spec_in_stock;
use crate::config::WebsiteConfig;
use crate::tracker::lemma_unchanged_observations_notify_at_most_once;
use crate::tracker::spec_notify_count;
use crate::tracker::spec_should_notify;
use crate::tracker::MonitorState;

verus! {

/// One fetch → check → decide cycle for a site.
///
/// `page_text` is the fetched page, or `None` when the fetch failed.
/// The state always ends at the newly observed stock value, and the
/// result asks for a notification exactly on a rising edge. A failed
/// fetch therefore resolves the cycle to "not in stock" and never
/// notifies.
pub fn cycle(state: &mut MonitorState, page_text: Option<&str>, config: &WebsiteConfig) -> (notify:
    bool)
    ensures
        final(state).currently_in_stock == spec_in_stock(
            page_view(page_text),
            config.no_stock_indicator@,
        ),
        notify == spec_should_notify(
            old(state).currently_in_stock,
            spec_in_stock(page_view(page_text), config.no_stock_indicator@),
        ),
{
    let current = config.is_in_stock(page_text);
    state.observe(current)
}

/// Repeated cycles whose fetches keep returning the same page text
/// never re-notify after the first: however many such cycles run, they
/// fire exactly one notification when the first is a rising edge, and
/// none otherwise. The checker is deterministic, so an unchanged text
/// means unchanged observations, and the tracker notifies a run of
/// unchanged observations at most once.
pub proof fn lemma_unchanged_text_notifies_at_most_once(
    init: bool,
    page_text: Option<Seq<char>>,
    indicator: Seq<char>,
    cycles: nat,
)
    ensures
        spec_notify_count(init, Seq::new(cycles, |i: int| spec_in_stock(page_text, indicator)))
            == if cycles > 0 && spec_should_notify(init, spec_in_stock(page_text, indicator)) {
            1nat
        } else {
            0nat
        },
{
    let observations = Seq::new(cycles, |i: int| spec_in_stock(page_text, indicator));
    lemma_unchanged_observations_notify_at_most_once(
        init,
        observations,
        spec_in_stock(page_text, indicator),
    );
}

} // verus!
