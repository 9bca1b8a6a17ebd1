//! News for the sentiment analysis: which news category an asset is asked
//! under, and the titles used when none can be fetched.
use vstd::prelude::*;

use crate::text::{before_first, concat, split_first};

verus! {

broadcast use vstd::string::group_string_axioms;

/// The text of `s` in upper case, as `str::to_uppercase` gives it (full
/// Unicode case mapping).
pub uninterp spec fn uppercase(s: Seq<char>) -> Seq<char>;

/// `str::to_uppercase`: the result is claimed to be [`uppercase`] of the
/// argument, that is, to depend on its characters alone; the Unicode case
/// mapping itself is not stated.
#[verifier::external_body]
fn to_uppercase(s: &str) -> (r: String)
    ensures
        r@ == uppercase(s@),
{
    s.to_uppercase()
}

/// The base asset of an asset name for the news: what precedes the first
/// `/`, or the whole name.
pub fn get_base_asset(pair: &str) -> (r: &str)
    ensures
        r@ == before_first(pair@, '/'),
{
    split_first(pair, '/')
}

/// The news category for an (upper-case) base asset: Kraken's `XBT` is
/// `BTC`, and the pseudo-asset `MARKET` stands for `BTC,ETH`.
pub open spec fn category_for(base: Seq<char>) -> Seq<char> {
    if base == "XBT"@ {
        "BTC"@
    } else if base == "MARKET"@ {
        "BTC,ETH"@
    } else {
        base
    }
}

/// The CryptoCompare news category under which news on `asset` is fetched.
pub fn news_category(asset: &str) -> (r: String)
    ensures
        r@ == category_for(uppercase(before_first(asset@, '/'))),
{
    let base = to_uppercase(get_base_asset(asset));
    category_for_base(base)
}

/// The news category for an upper-case base asset: Kraken's `XBT` is
/// `BTC`, the pseudo-asset `MARKET` stands for `BTC,ETH`, and any other
/// asset is its own category.
pub fn category_for_base(base: String) -> (r: String)
    ensures
        r@ == category_for(base@),
{
    if base == String::from_str("XBT") {
        String::from_str("BTC")
    } else if base == String::from_str("MARKET") {
        String::from_str("BTC,ETH")
    } else {
        base
    }
}

/// The titles used when no news could be fetched for `category`.
pub open spec fn fallback_titles(category: Seq<char>) -> Seq<Seq<char>> {
    seq![
        category + " continues to show strong bullish momentum amid market uncertainty."@,
        "New regulations might negatively affect "@ + category + " trading volumes in Europe."@,
        "Institutional investors are accumulating "@ + category + " after the recent dip."@,
    ]
}

/// The news titles for the analysis: the fetched ones, or the fallback
/// titles for `category` when none were fetched.
pub fn titles_or_fallback(titles: Vec<String>, category: &str) -> (r: Vec<String>)
    ensures
        titles@.len() > 0 ==> r@ == titles@,
        titles@.len() == 0 ==> r@.map_values(|t: String| t@) == fallback_titles(category@),
        r@.len() > 0,
{
    if titles.len() > 0 {
        return titles;
    }
    let mut r: Vec<String> = Vec::new();
    r.push(concat(category, " continues to show strong bullish momentum amid market uncertainty."));
    let mut second = concat("New regulations might negatively affect ", category);
    second.append(" trading volumes in Europe.");
    r.push(second);
    let mut third = concat("Institutional investors are accumulating ", category);
    third.append(" after the recent dip.");
    r.push(third);
    assert(r@.map_values(|t: String| t@) =~= fallback_titles(category@));
    r
}

} // verus!
