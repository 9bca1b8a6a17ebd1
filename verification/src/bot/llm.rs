//! The LLM's trading decision and the cleaning of its reply.
use vstd::prelude::*;

use crate::bot::strategy::Signal;
use crate::text::{chars_of, occurs_at, string_of, trim, trim_spec};

verus! {

broadcast use vstd::string::group_string_axioms;

/// A decision returned by the LLM: `BUY`, `SELL` or `HOLD`, with a
/// confidence in percent.
pub struct LlmDecision {
    pub decision: String,
    pub confidence: u8,
}

/// The signal a decision word stands for: `BUY` and `SELL` exactly, and
/// `Hold` for anything else.
pub open spec fn decision_signal(word: Seq<char>) -> Signal {
    if word == "BUY"@ {
        Signal::Buy
    } else if word == "SELL"@ {
        Signal::Sell
    } else {
        Signal::Hold
    }
}

impl LlmDecision {
    pub fn to_signal(&self) -> (s: Signal)
        ensures
            s == decision_signal(self.decision@),
    {
        if self.decision == String::from_str("BUY") {
            Signal::Buy
        } else if self.decision == String::from_str("SELL") {
            Signal::Sell
        } else {
            Signal::Hold
        }
    }

    /// The decision used when no OpenRouter API key is configured: `HOLD`
    /// at 50%.
    pub fn without_api_key() -> (d: LlmDecision)
        ensures
            d.decision@ == "HOLD"@,
            d.confidence == 50,
    {
        LlmDecision { decision: String::from_str("HOLD"), confidence: 50 }
    }

    /// The decision used when the LLM's reply holds no readable decision:
    /// `HOLD` at 0%.
    pub fn unreadable_reply() -> (d: LlmDecision)
        ensures
            d.decision@ == "HOLD"@,
            d.confidence == 0,
    {
        LlmDecision { decision: String::from_str("HOLD"), confidence: 0 }
    }
}

/// `s` with every leading occurrence of `p` removed (`str::trim_start_matches`).
pub open spec fn strip_prefixes(s: Seq<char>, p: Seq<char>) -> Seq<char>
    decreases s.len(),
{
    if p.len() > 0 && p.is_prefix_of(s) {
        strip_prefixes(s.skip(p.len() as int), p)
    } else {
        s
    }
}

/// `s` with every trailing occurrence of `p` removed (`str::trim_end_matches`).
pub open spec fn strip_suffixes(s: Seq<char>, p: Seq<char>) -> Seq<char>
    decreases s.len(),
{
    if p.len() > 0 && p.is_suffix_of(s) {
        strip_suffixes(s.take(s.len() - p.len()), p)
    } else {
        s
    }
}

/// The LLM's reply freed of a Markdown code fence around it: trimmed, with
/// leading "```json" and "```" and trailing "```" removed, trimmed again.
pub open spec fn clean_reply_spec(content: Seq<char>) -> Seq<char> {
    trim_spec(
        strip_suffixes(strip_prefixes(strip_prefixes(trim_spec(content), "```json"@), "```"@), "```"@),
    )
}

/// Removes every leading occurrence of `p` from `v[from..to]`; returns the
/// new start.
fn strip_prefixes_in(v: &Vec<char>, from: usize, to: usize, p: &Vec<char>) -> (start: usize)
    requires
        from <= to <= v.len(),
    ensures
        from <= start <= to,
        v@.subrange(start as int, to as int) == strip_prefixes(
            v@.subrange(from as int, to as int),
            p@,
        ),
    decreases to - from,
{
    let ghost s = v@.subrange(from as int, to as int);
    if p.len() > 0 && p.len() <= to - from && occurs_at(v, from, p) {
        assert(p@.is_prefix_of(s)) by {
            assert(v@.skip(from as int).subrange(0, p@.len() as int) =~= s.subrange(
                0,
                p@.len() as int,
            ));
        }
        assert(s.skip(p@.len() as int) =~= v@.subrange(from + p.len(), to as int));
        strip_prefixes_in(v, from + p.len(), to, p)
    } else {
        assert(!(p@.len() > 0 && p@.is_prefix_of(s))) by {
            if p@.len() > 0 && p@.is_prefix_of(s) {
                assert(v@.skip(from as int).subrange(0, p@.len() as int) =~= s.subrange(
                    0,
                    p@.len() as int,
                ));
            }
        }
        from
    }
}

/// Removes every trailing occurrence of `p` from `v[from..to]`; returns the
/// new end.
fn strip_suffixes_in(v: &Vec<char>, from: usize, to: usize, p: &Vec<char>) -> (end: usize)
    requires
        from <= to <= v.len(),
    ensures
        from <= end <= to,
        v@.subrange(from as int, end as int) == strip_suffixes(
            v@.subrange(from as int, to as int),
            p@,
        ),
    decreases to - from,
{
    let ghost s = v@.subrange(from as int, to as int);
    if p.len() > 0 && p.len() <= to - from && occurs_at(v, to - p.len(), p) {
        assert(p@.is_suffix_of(s)) by {
            assert(v@.skip(to - p.len()).subrange(0, p@.len() as int) =~= s.subrange(
                s.len() - p@.len(),
                s.len() as int,
            ));
        }
        assert(s.take(s.len() - p@.len()) =~= v@.subrange(from as int, to - p.len()));
        strip_suffixes_in(v, from, to - p.len(), p)
    } else {
        assert(!(p@.len() > 0 && p@.is_suffix_of(s))) by {
            if p@.len() > 0 && p@.is_suffix_of(s) {
                assert(v@.skip(to - p.len()).subrange(0, p@.len() as int) =~= s.subrange(
                    s.len() - p@.len(),
                    s.len() as int,
                ));
            }
        }
        to
    }
}

/// The LLM's reply freed of a Markdown code fence around it, ready to be
/// parsed as JSON.
pub fn clean_llm_content(content: &str) -> (r: String)
    ensures
        r@ == clean_reply_spec(content@),
{
    let v = chars_of(trim(content));
    let json_fence = chars_of("```json");
    let fence = chars_of("```");
    let n = v.len();
    assert(v@.subrange(0, n as int) =~= v@);
    let a = strip_prefixes_in(&v, 0, n, &json_fence);
    let b = strip_prefixes_in(&v, a, n, &fence);
    let e = strip_suffixes_in(&v, b, n, &fence);
    let middle = string_of(&v.as_slice()[b..e]);
    String::from_str(trim(middle.as_str()))
}

} // verus!
