//! The autonomous sentiment bot: the decisions of its trading loop.
//!
//! The loop itself (timers, HTTP calls, paper trades, notifications) is run
//! by the caller, which reports each outcome to a [`BotController`] and
//! performs the action it answers.
use vstd::prelude::*;

use vstd::string::StringSliceAdditionalSpecFns;

use crate::text::{contains_char, is_after_last, is_before_first, split_first, split_last};

pub mod llm;
pub mod news;
pub mod screener;
pub mod strategy;
pub mod telegram;

verus! {

broadcast use vstd::string::group_string_axioms;

/// Consecutive failed fetches that stop the bot (the kill switch).
pub const MAX_CONSECUTIVE_ERRORS: u32 = 3;

/// Candidates evaluated with the LLM in one cycle, at most.
pub const MAX_CANDIDATES_PER_CYCLE: usize = 10;

/// Minimum LLM confidence, in percent, for a BUY or SELL signal.
pub const CONFIDENCE_THRESHOLD: u8 = 55;

/// The bytes of a string, UTF-8 encoded.
pub open spec fn bytes_of(s: &str) -> Seq<u8> {
    s.spec_bytes()
}

/// Whether slicing `pair` three bytes before its end cannot panic: the pair
/// has a `/`, is at most three bytes long, or has a character boundary there.
/// (Its byte length fits in `usize`, as that of any string in memory.)
pub open spec fn asset_split_is_safe(pair: &str) -> bool {
    &&& bytes_of(pair).len() <= usize::MAX
    &&& asset_split_cannot_panic(pair)
}

/// The pair has a `/`, is at most three bytes long, or has a character
/// boundary three bytes before its end.
pub open spec fn asset_split_cannot_panic(pair: &str) -> bool {
    ||| pair@.contains('/')
    ||| bytes_of(pair).len() <= 3
    ||| vstd::utf8::is_char_boundary(bytes_of(pair), bytes_of(pair).len() - 3)
}

/// The quote asset of a pair: what follows the last `/`, or else the last
/// three bytes, or `USD` for a pair of at most three bytes.
pub fn get_quote_asset(pair: &str) -> (r: &str)
    requires
        asset_split_is_safe(pair),
    ensures
        pair@.contains('/') ==> is_after_last(r@, pair@, '/'),
        !pair@.contains('/') && bytes_of(pair).len() > 3 ==> bytes_of(r) == bytes_of(pair).skip(
            bytes_of(pair).len() - 3,
        ),
        !pair@.contains('/') && bytes_of(pair).len() <= 3 ==> r@ == "USD"@,
{
    if contains_char(pair, '/') {
        split_last(pair, '/')
    } else {
        let len = pair.len();
        if len > 3 {
            let (_, quote) = pair.split_at(len - 3);
            quote
        } else {
            "USD"
        }
    }
}

/// The base asset of a pair: what precedes the first `/`, or else all but
/// the last three bytes, or `BTC` for a pair of at most three bytes.
pub fn get_base_asset(pair: &str) -> (r: &str)
    requires
        asset_split_is_safe(pair),
    ensures
        pair@.contains('/') ==> is_before_first(r@, pair@, '/'),
        !pair@.contains('/') && bytes_of(pair).len() > 3 ==> bytes_of(r) == bytes_of(pair).take(
            bytes_of(pair).len() - 3,
        ),
        !pair@.contains('/') && bytes_of(pair).len() <= 3 ==> r@ == "BTC"@,
{
    if contains_char(pair, '/') {
        split_first(pair, '/')
    } else {
        let len = pair.len();
        if len > 3 {
            let (base, _) = pair.split_at(len - 3);
            base
        } else {
            "BTC"
        }
    }
}

/// `c` occurs exactly once in `s`, at `i`.
pub open spec fn only_at(s: Seq<char>, c: char, i: int) -> bool {
    &&& 0 <= i < s.len()
    &&& s[i] == c
    &&& forall|j: int| 0 <= j < s.len() && j != i ==> s[j] != c
}

/// A pair with exactly one `/` is its base asset, `/` and quote asset, as
/// `get_base_asset` and `get_quote_asset` give them.
pub proof fn base_and_quote_rebuild_pair(pair: Seq<char>, base: Seq<char>, quote: Seq<char>, i: int)
    requires
        only_at(pair, '/', i),
        is_before_first(base, pair, '/'),
        is_after_last(quote, pair, '/'),
    ensures
        base + seq!['/'] + quote == pair,
{
    if base.len() == pair.len() {
        assert(base[i] == pair[i]);
        assert(base.contains('/'));
    }
    assert(pair[base.len() as int] == '/');
    if quote.len() == pair.len() {
        assert(quote[i] == pair[i]);
        assert(quote.contains('/'));
    }
    assert(pair[pair.len() - quote.len() - 1] == '/');
    assert(base.len() == i);
    assert(pair.len() - quote.len() - 1 == i);
    assert(base + seq!['/'] + quote =~= pair);
}

/// A pair without `/` of more than three bytes is its base asset's bytes
/// followed by its quote asset's bytes, as `get_base_asset` and
/// `get_quote_asset` give them.
pub proof fn base_and_quote_bytes_rebuild_pair(pair: Seq<u8>, base: Seq<u8>, quote: Seq<u8>)
    requires
        pair.len() > 3,
        base == pair.take(pair.len() - 3),
        quote == pair.skip(pair.len() - 3),
    ensures
        base + quote == pair,
{
    assert(base + quote =~= pair);
}

/// What the trading loop does after a fetch.
#[derive(Debug, Clone, Copy, PartialEq, Eq, Structural)]
pub enum LoopAction {
    /// Go on with this step.
    Continue,
    /// Give up on the current asset and go to the next one.
    SkipAsset,
    /// Send the kill-switch notice and stop the bot.
    KillSwitch,
}

/// The failure counter after a fetch: reset by a success, one more after a
/// failure.
pub open spec fn errors_after(errors: u32, ok: bool) -> int {
    if ok {
        0
    } else {
        errors + 1
    }
}

/// The bookkeeping of the trading loop: the run of consecutive failed
/// fetches, which stops the bot at [`MAX_CONSECUTIVE_ERRORS`], and the
/// number of candidates evaluated in the current cycle, at most
/// [`MAX_CANDIDATES_PER_CYCLE`].
pub struct BotController {
    consecutive_errors: u32,
    evaluated_count: usize,
}

impl BotController {
    /// Failed fetches in a row so far.
    pub closed spec fn errors(&self) -> u32 {
        self.consecutive_errors
    }

    /// Candidates evaluated in the current cycle.
    pub closed spec fn evaluated(&self) -> usize {
        self.evaluated_count
    }

    /// A running controller: below the kill-switch threshold and within the
    /// candidate limit.
    pub open spec fn running(&self) -> bool {
        self.errors() < MAX_CONSECUTIVE_ERRORS && self.evaluated() <= MAX_CANDIDATES_PER_CYCLE
    }

    /// A controller for a bot that has just started.
    pub fn new() -> (c: BotController)
        ensures
            c.errors() == 0,
            c.evaluated() == 0,
            c.running(),
    {
        BotController { consecutive_errors: 0, evaluated_count: 0 }
    }

    /// Failed fetches in a row so far.
    pub fn consecutive_errors(&self) -> (n: u32)
        ensures
            n == self.errors(),
    {
        self.consecutive_errors
    }

    /// Starts a new cycle: no candidate evaluated yet.
    pub fn start_cycle(&mut self)
        requires
            old(self).running(),
        ensures
            final(self).errors() == old(self).errors(),
            final(self).evaluated() == 0,
            final(self).running(),
    {
        self.evaluated_count = 0;
    }

    /// Records the outcome of a fetch and returns what the loop does next.
    /// A success resets the failure count; a failure counts one more, and
    /// the one that reaches [`MAX_CONSECUTIVE_ERRORS`] stops the bot. Below
    /// the limit, `on_failure` says what a failure leads to.
    fn record_fetch(&mut self, ok: bool, on_failure: LoopAction) -> (a: LoopAction)
        requires
            old(self).running(),
        ensures
            final(self).errors() == errors_after(old(self).errors(), ok),
            ok ==> final(self).errors() == 0,
            !ok ==> final(self).errors() == old(self).errors() + 1,
            !ok && old(self).errors() + 1 >= 3 ==> a == LoopAction::KillSwitch,
            final(self).evaluated() == old(self).evaluated(),
            ok ==> a == LoopAction::Continue,
            !ok && errors_after(old(self).errors(), ok) >= MAX_CONSECUTIVE_ERRORS ==> a
                == LoopAction::KillSwitch,
            !ok && errors_after(old(self).errors(), ok) < MAX_CONSECUTIVE_ERRORS ==> a
                == on_failure,
            a != LoopAction::KillSwitch ==> final(self).running(),
    {
        if ok {
            self.consecutive_errors = 0;
            LoopAction::Continue
        } else {
            self.consecutive_errors = self.consecutive_errors + 1;
            if self.consecutive_errors >= MAX_CONSECUTIVE_ERRORS {
                LoopAction::KillSwitch
            } else {
                on_failure
            }
        }
    }

    /// Records whether the market news was fetched. Below the kill-switch
    /// threshold a failure leaves the loop going on with fallback news.
    pub fn record_news(&mut self, ok: bool) -> (a: LoopAction)
        requires
            old(self).running(),
        ensures
            final(self).errors() == errors_after(old(self).errors(), ok),
            ok ==> final(self).errors() == 0,
            !ok ==> final(self).errors() == old(self).errors() + 1,
            ok ==> a == LoopAction::Continue,
            !ok && old(self).errors() + 1 >= 3 ==> a == LoopAction::KillSwitch,
            !ok && old(self).errors() + 1 < 3 ==> a != LoopAction::KillSwitch,
            final(self).evaluated() == old(self).evaluated(),
            a == (if errors_after(old(self).errors(), ok) >= MAX_CONSECUTIVE_ERRORS {
                LoopAction::KillSwitch
            } else {
                LoopAction::Continue
            }),
            a != LoopAction::KillSwitch ==> final(self).running(),
    {
        self.record_fetch(ok, LoopAction::Continue)
    }

    /// Records whether an asset's OHLC data was fetched. Below the
    /// kill-switch threshold a failure skips the asset.
    pub fn record_ohlc(&mut self, ok: bool) -> (a: LoopAction)
        requires
            old(self).running(),
        ensures
            final(self).errors() == errors_after(old(self).errors(), ok),
            ok ==> final(self).errors() == 0,
            !ok ==> final(self).errors() == old(self).errors() + 1,
            ok ==> a == LoopAction::Continue,
            !ok && old(self).errors() + 1 >= 3 ==> a == LoopAction::KillSwitch,
            !ok && old(self).errors() + 1 < 3 ==> a != LoopAction::KillSwitch,
            final(self).evaluated() == old(self).evaluated(),
            a == (if ok {
                LoopAction::Continue
            } else if errors_after(old(self).errors(), ok) >= MAX_CONSECUTIVE_ERRORS {
                LoopAction::KillSwitch
            } else {
                LoopAction::SkipAsset
            }),
            a != LoopAction::KillSwitch ==> final(self).running(),
    {
        self.record_fetch(ok, LoopAction::SkipAsset)
    }

    /// Whether another candidate may be evaluated in this cycle.
    pub fn may_evaluate_more(&self) -> (b: bool)
        ensures
            b == (self.evaluated() < MAX_CANDIDATES_PER_CYCLE),
    {
        self.evaluated_count < MAX_CANDIDATES_PER_CYCLE
    }

    /// Counts a candidate that passed the technical filter and goes to the LLM.
    pub fn accept_candidate(&mut self)
        requires
            old(self).running(),
            old(self).evaluated() < MAX_CANDIDATES_PER_CYCLE,
        ensures
            final(self).errors() == old(self).errors(),
            final(self).evaluated() == old(self).evaluated() + 1,
            final(self).running(),
    {
        self.evaluated_count = self.evaluated_count + 1;
    }
}

/// The news used when the market news cannot be fetched.
pub fn market_news_fallback() -> (v: Vec<String>)
    ensures
        v@.len() == 1,
        v@[0]@ == "Market shows general volatility."@,
{
    let mut v: Vec<String> = Vec::new();
    v.push(String::from_str("Market shows general volatility."));
    v
}

/// Failures at the end of a run of fetch outcomes (`true` for a success).
pub open spec fn trailing_failures(outcomes: Seq<bool>) -> nat
    decreases outcomes.len(),
{
    if outcomes.len() == 0 {
        0
    } else if outcomes.last() {
        0
    } else {
        trailing_failures(outcomes.drop_last()) + 1
    }
}

/// The failure count after a run of fetch outcomes, from `start`.
pub open spec fn errors_after_run(start: int, outcomes: Seq<bool>) -> int
    decreases outcomes.len(),
{
    if outcomes.len() == 0 {
        start
    } else if outcomes.last() {
        0
    } else {
        errors_after_run(start, outcomes.drop_last()) + 1
    }
}

/// The kill switch counts failures in a row: from a fresh start, after any
/// run of fetch outcomes the count is the number of failures since the last
/// success, so the bot stops exactly at the third failure in a row and a
/// success in between always resets the count.
pub proof fn kill_switch_counts_failures_in_a_row(outcomes: Seq<bool>)
    ensures
        errors_after_run(0, outcomes) == trailing_failures(outcomes),
        errors_after_run(0, outcomes) >= MAX_CONSECUTIVE_ERRORS <==> (outcomes.len() >= 3
            && !outcomes[outcomes.len() - 1] && !outcomes[outcomes.len() - 2]
            && !outcomes[outcomes.len() - 3]),
    decreases outcomes.len(),
{
    if outcomes.len() > 0 {
        kill_switch_counts_failures_in_a_row(outcomes.drop_last());
        if outcomes.len() > 1 {
            kill_switch_counts_failures_in_a_row(outcomes.drop_last().drop_last());
        }
        if outcomes.len() > 2 {
            kill_switch_counts_failures_in_a_row(outcomes.drop_last().drop_last().drop_last());
        }
    }
}

/// The failure count kept over calls: a success resets it to 0 and a
/// failure adds one, so over any sequence of recorded fetch outcomes from a
/// fresh controller the count after each call (`counts[i + 1]`, from the
/// `errors()` that `record_news` and `record_ohlc` ensure) is the number of
/// failures since the last success, and the kill switch fires exactly at the
/// third failure in a row.
pub proof fn failure_count_over_calls(counts: Seq<u32>, outcomes: Seq<bool>)
    requires
        counts.len() == outcomes.len() + 1,
        counts[0] == 0,
        forall|i: int|
            #![trigger outcomes[i]]
            0 <= i < outcomes.len() ==> counts[i + 1] == errors_after(counts[i], outcomes[i]),
    ensures
        forall|k: int|
            0 <= k <= outcomes.len() ==> #[trigger] counts[k] == trailing_failures(
                outcomes.take(k),
            ),
        counts.last() >= MAX_CONSECUTIVE_ERRORS <==> (outcomes.len() >= 3 && !outcomes[outcomes.len()
            - 1] && !outcomes[outcomes.len() - 2] && !outcomes[outcomes.len() - 3]),
    decreases outcomes.len(),
{
    assert forall|k: int| 0 <= k <= outcomes.len() implies #[trigger] counts[k]
        == trailing_failures(outcomes.take(k)) by {
        count_is_trailing_failures(counts, outcomes, k);
    }
    assert(outcomes.take(outcomes.len() as int) =~= outcomes);
    assert(counts[outcomes.len() as int] == trailing_failures(outcomes));
    kill_switch_counts_failures_in_a_row(outcomes);
}

/// The count after `k` calls is the number of failures since the last
/// success among the first `k` outcomes.
proof fn count_is_trailing_failures(counts: Seq<u32>, outcomes: Seq<bool>, k: int)
    requires
        counts.len() == outcomes.len() + 1,
        counts[0] == 0,
        forall|i: int|
            #![trigger outcomes[i]]
            0 <= i < outcomes.len() ==> counts[i + 1] == errors_after(counts[i], outcomes[i]),
        0 <= k <= outcomes.len(),
    ensures
        counts[k] == trailing_failures(outcomes.take(k)),
    decreases k,
{
    if k > 0 {
        count_is_trailing_failures(counts, outcomes, k - 1);
        assert(outcomes.take(k).drop_last() =~= outcomes.take(k - 1));
        assert(outcomes.take(k).last() == outcomes[k - 1]);
        assert(counts[k] == errors_after(counts[k - 1], outcomes[k - 1]));
    } else {
        assert(outcomes.take(0) =~= Seq::<bool>::empty());
    }
}

} // verus!
