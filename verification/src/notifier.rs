//! Webhook payload building. Delivering the payload is HTTP work left
//! to the surrounding application; the text it sends is built and
//! pinned down here.

use vstd::prelude::*;

verus! {

/// The payload `build_payload` produces: one JSON object with a
/// username, and a single embed whose description names the site and
/// whose link is the site's URL. The site's fields are spliced in as
/// they are, without escaping, as this monitor always did.
pub open spec fn spec_payload(site_name: Seq<char>, site_url: Seq<char>) -> Seq<char> {
    "{\"username\": \"\u{1f5a5}  - Monitor\", \"embeds\": [ {\"title\": \"Monitor triggered\",\"color\": 1841963, \"description\": \"The product is available on "@
        + site_name + "\",\"url\": \""@ + site_url
        + "\",\"footer\": {\"text\": \"built by peet with \u{2764}\u{fe0f}\"}}]}"@
}

/// Build the webhook body announcing that the product on `site_name`
/// has come back in stock at `site_url`.
pub fn build_payload(site_name: &str, site_url: &str) -> (r: String)
    ensures
        r@ == spec_payload(site_name@, site_url@),
{
    let mut out = String::from_str(
        "{\"username\": \"\u{1f5a5}  - Monitor\", \"embeds\": [ {\"title\": \"Monitor triggered\",\"color\": 1841963, \"description\": \"The product is available on ",
    );
    out.append(site_name);
    out.append("\",\"url\": \"");
    out.append(site_url);
    out.append("\",\"footer\": {\"text\": \"built by peet with \u{2764}\u{fe0f}\"}}]}");
    out
}

} // verus!
