//! Construction of browser search URLs; handing a URL to the browser stays
//! with the surrounding binary.

use vstd::prelude::*;

use crate::text::str_eq;

verus! {

/// What `urlencoding::encode` returns for a given query: the percent-encoded
/// form depends on the characters alone.
pub uninterp spec fn url_encoded(s: Seq<char>) -> Seq<char>;

/// Relies on urlencoding::encode: percent-encodes every byte of the UTF-8
/// form except alphanumerics and `-`, `_`, `.`, `~`; an empty query encodes
/// to an empty string.
#[verifier::external_body]
fn url_encode(query: &str) -> (r: String)
    ensures
        r@ == url_encoded(query@),
        query@.len() == 0 ==> r@.len() == 0,
{
    urlencoding::encode(query).into_owned()
}

/// The search URL a query and engine produce: the engine's search endpoint
/// with the percent-encoded query appended; nothing for an unknown engine.
pub open spec fn spec_search_url(query: Seq<char>, engine: Seq<char>) -> Option<Seq<char>> {
    if engine == "Google"@ {
        Option::Some("https://www.google.com/search?q="@ + url_encoded(query))
    } else if engine == "DuckDuckGo"@ {
        Option::Some("https://duckduckgo.com/?q="@ + url_encoded(query))
    } else if engine == "Bing"@ {
        Option::Some("https://www.bing.com/search?q="@ + url_encoded(query))
    } else {
        Option::None
    }
}

/// Build the search URL for `query` on the configured engine; nothing for an
/// engine outside the known set.
pub fn build_search_url(query: &str, search_engine: &str) -> (r: Option<String>)
    ensures
        r is Some <==> spec_search_url(query@, search_engine@) is Some,
        r matches Some(u) ==> u@ == spec_search_url(query@, search_engine@).unwrap(),
{
    let encoded = url_encode(query);
    if str_eq(search_engine, "Google") {
        let mut u = "https://www.google.com/search?q=".to_owned();
        u.append(encoded.as_str());
        Some(u)
    } else if str_eq(search_engine, "DuckDuckGo") {
        let mut u = "https://duckduckgo.com/?q=".to_owned();
        u.append(encoded.as_str());
        Some(u)
    } else if str_eq(search_engine, "Bing") {
        let mut u = "https://www.bing.com/search?q=".to_owned();
        u.append(encoded.as_str());
        Some(u)
    } else {
        None
    }
}

} // verus!
