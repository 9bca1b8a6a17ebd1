//! The market screener: which Kraken ticker pairs are USD markets worth
//! trading, and under which base asset.
use vstd::prelude::*;

use crate::text::{
    chars_of, replace, replace_spec, starts_with, utf8_len, utf8_len_exceeds,
};

verus! {

broadcast use vstd::string::group_string_axioms;

/// Whether `base` is a stablecoin, which the screener never selects.
pub open spec fn is_stablecoin(base: Seq<char>) -> bool {
    ||| base == "USDT"@
    ||| base == "USDC"@
    ||| base == "DAI"@
    ||| base == "FDUSD"@
    ||| base == "TUSD"@
    ||| base == "USDD"@
}

/// The pair name with its USD quote removed: every `ZUSD` when it ends with
/// `ZUSD`, else every `USD`.
pub open spec fn without_quote(pair: Seq<char>) -> Seq<char> {
    if "ZUSD"@.is_suffix_of(pair) {
        replace_spec(pair, "ZUSD"@, ""@)
    } else {
        replace_spec(pair, "USD"@, ""@)
    }
}

/// The base asset with Kraken's `X` prefix for crypto removed, when it is
/// longer than three bytes.
pub open spec fn without_x_prefix(base: Seq<char>) -> Seq<char> {
    if base.len() > 0 && base[0] == 'X' && utf8_len(base) > 3 {
        base.drop_first()
    } else {
        base
    }
}

/// The base asset the screener selects from a ticker pair name, if any: the
/// pair must be quoted in USD and its base must not be a stablecoin.
pub open spec fn screened_base(pair: Seq<char>) -> Option<Seq<char>> {
    if !"USD"@.is_suffix_of(pair) {
        None
    } else {
        let base = without_x_prefix(without_quote(pair));
        if is_stablecoin(base) {
            None
        } else {
            Some(base)
        }
    }
}

/// Whether `s` ends with `suffix`.
fn ends_with(s: &str, suffix: &str) -> (b: bool)
    ensures
        b == suffix@.is_suffix_of(s@),
{
    let v = chars_of(s);
    let p = chars_of(suffix);
    if p.len() > v.len() {
        return false;
    }
    let off = v.len() - p.len();
    let mut i: usize = 0;
    while i < p.len()
        invariant
            v@ == s@,
            p@ == suffix@,
            off + p.len() == v.len(),
            i <= p.len(),
            forall|j: int| 0 <= j < i ==> v@[off + j] == p@[j],
        decreases p.len() - i,
    {
        if v[off + i] != p[i] {
            return false;
        }
        i = i + 1;
    }
    assert(suffix@ =~= s@.subrange(off as int, s@.len() as int));
    true
}

/// The base asset that the screener selects from a Kraken ticker pair name:
/// `None` for a pair not quoted in USD or for a stablecoin.
pub fn usd_base_asset(pair: &str) -> (r: Option<String>)
    ensures
        match r {
            Some(b) => screened_base(pair@) == Some(b@),
            None => screened_base(pair@) is None,
        },
        r matches Some(b) ==> b@ != "USDT"@ && b@ != "USDC"@ && b@ != "DAI"@ && b@ != "FDUSD"@
            && b@ != "TUSD"@ && b@ != "USDD"@,
        r matches Some(b) ==> "USD"@.is_suffix_of(pair@),
{
    proof {
        reveal_strlit("USD");
        reveal_strlit("ZUSD");
        reveal_strlit("X");
    }
    if !ends_with(pair, "USD") {
        return None;
    }
    let mut base = if ends_with(pair, "ZUSD") {
        replace(pair, "ZUSD", "")
    } else {
        replace(pair, "USD", "")
    };
    let ghost quoted = base@;
    assert(quoted == without_quote(pair@));
    assert(quoted.len() > 0 && quoted[0] == 'X' ==> "X"@.is_prefix_of(quoted)) by {
        if quoted.len() > 0 && quoted[0] == 'X' {
            assert("X"@ =~= quoted.subrange(0, 1));
        }
    }
    if starts_with(base.as_str(), "X") && utf8_len_exceeds(base.as_str(), 3) {
        let n = chars_of(base.as_str()).len();
        base = String::from_str(base.as_str().substring_char(1, n));
        assert(base@ =~= quoted.drop_first());
        assert(quoted.subrange(0, 1)[0] == quoted[0]);
    }
    assert(base@ == without_x_prefix(quoted));
    let stable = base == String::from_str("USDT") || base == String::from_str("USDC") || base
        == String::from_str("DAI") || base == String::from_str("FDUSD") || base == String::from_str(
        "TUSD",
    ) || base == String::from_str("USDD");
    if stable {
        None
    } else {
        Some(base)
    }
}

/// The screener never selects a stablecoin: whatever the pair, the base it
/// selects is none of USDT, USDC, DAI, FDUSD, TUSD and USDD, and it selects
/// only pairs quoted in USD.
pub proof fn screener_never_selects_stablecoins(pair: Seq<char>)
    ensures
        screened_base(pair) matches Some(b) ==> b != "USDT"@ && b != "USDC"@ && b != "DAI"@ && b
            != "FDUSD"@ && b != "TUSD"@ && b != "USDD"@,
        screened_base(pair) is Some ==> "USD"@.is_suffix_of(pair),
{
}

} // verus!
