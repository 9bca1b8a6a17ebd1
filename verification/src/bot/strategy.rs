//! Trading strategies: the signal each one gives.
use vstd::prelude::*;

use crate::bot::llm::{decision_signal, LlmDecision};

verus! {

broadcast use vstd::string::group_string_axioms;

#[derive(Debug, Clone, Copy, PartialEq, Eq, Structural)]
pub enum Signal {
    Buy,
    Sell,
    Hold,
}

// ---------------------------------------------------------------------------
// LLM sentiment strategy
// ---------------------------------------------------------------------------

/// The news handed to the LLM when no news is available.
pub open spec fn no_news_text() -> Seq<char> {
    "Nessuna notizia recente. Assenza di notizie negative, valuta positivamente l'assenza di panico e i segnali tecnici."@
}

/// The signal of the sentiment strategy for an LLM answer (`None` when the
/// LLM could not be asked): `Hold` without an answer or below the
/// confidence threshold, the answer's own signal otherwise.
pub open spec fn sentiment_signal_spec(
    decision: Option<(Seq<char>, u8)>,
    confidence_threshold: u8,
) -> Signal {
    match decision {
        None => Signal::Hold,
        Some(d) => if d.1 < confidence_threshold {
            Signal::Hold
        } else {
            decision_signal(d.0)
        },
    }
}

/// A strategy that asks an LLM for a sentiment decision on the news and
/// acts on it only above a confidence threshold. `C` is the LLM client.
pub struct LlmSentimentStrategy<C> {
    llm_client: C,
    confidence_threshold: u8,
}

impl<C> LlmSentimentStrategy<C> {
    /// The minimum confidence, in percent, for a BUY or SELL signal.
    pub closed spec fn threshold(&self) -> u8 {
        self.confidence_threshold
    }

    /// The LLM client.
    pub closed spec fn client(&self) -> C {
        self.llm_client
    }

    pub fn new(llm_client: C, confidence_threshold: u8) -> (s: Self)
        ensures
            s.threshold() == confidence_threshold,
            s.client() == llm_client,
    {
        LlmSentimentStrategy { llm_client, confidence_threshold }
    }

    /// The LLM client, for the request.
    pub fn llm_client(&self) -> (c: &C)
        ensures
            *c == self.client(),
    {
        &self.llm_client
    }

    /// The news to hand to the LLM: the given news, or, when there is none, a
    /// note that no recent (and so no negative) news exists.
    pub fn news_to_use(&self, news: &Vec<String>) -> (v: Vec<String>)
        ensures
            news@.len() > 0 ==> v@ == news@,
            news@.len() == 0 ==> v@.len() == 1 && v@[0]@ == no_news_text(),
    {
        if news.len() == 0 {
            let mut v: Vec<String> = Vec::new();
            v.push(
                String::from_str(
                    "Nessuna notizia recente. Assenza di notizie negative, valuta positivamente l'assenza di panico e i segnali tecnici.",
                ),
            );
            v
        } else {
            news.clone()
        }
    }

    /// The signal for the LLM's answer: `None` when the request failed,
    /// which gives `Hold`; an answer below the confidence threshold also
    /// gives `Hold`.
    pub fn signal_for(&self, decision: Option<&LlmDecision>) -> (s: Signal)
        ensures
            s == sentiment_signal_spec(
                match decision {
                    Some(d) => Some((d.decision@, d.confidence)),
                    None => None,
                },
                self.threshold(),
            ),
            match decision {
                None => s == Signal::Hold,
                Some(d) => {
                    &&& d.confidence < self.threshold() ==> s == Signal::Hold
                    &&& d.confidence >= self.threshold() && d.decision@ == "BUY"@ ==> s
                        == Signal::Buy
                    &&& d.confidence >= self.threshold() && d.decision@ == "SELL"@ ==> s
                        == Signal::Sell
                    &&& d.decision@ != "BUY"@ && d.decision@ != "SELL"@ ==> s == Signal::Hold
                },
            },
    {
        proof {
            reveal_strlit("BUY");
            reveal_strlit("SELL");
        }
        match decision {
            None => Signal::Hold,
            Some(d) => {
                if d.confidence < self.confidence_threshold {
                    Signal::Hold
                } else {
                    assert("BUY"@.len() != "SELL"@.len());
                    d.to_signal()
                }
            },
        }
    }
}

// ---------------------------------------------------------------------------
// SMA crossover strategy
// ---------------------------------------------------------------------------

/// How the short moving average stands against the long one.
#[derive(Debug, Clone, Copy, PartialEq, Eq, Structural)]
pub enum SmaTrend {
    ShortAbove,
    ShortBelow,
    Level,
}

/// The signal a trend points to.
pub open spec fn trend_signal(t: SmaTrend) -> Signal {
    match t {
        SmaTrend::ShortAbove => Signal::Buy,
        SmaTrend::ShortBelow => Signal::Sell,
        SmaTrend::Level => Signal::Hold,
    }
}

/// One step of the crossover: from the last directional signal and the
/// current trend (`None` when an average cannot be computed), the new last
/// signal and the signal returned. A signal is returned only when the
/// direction changes.
pub open spec fn crossover_step(last: Signal, trend: Option<SmaTrend>) -> (Signal, Signal) {
    match trend {
        None => (last, Signal::Hold),
        Some(t) => {
            let current = trend_signal(t);
            let out = if current != last && current != Signal::Hold {
                current
            } else {
                Signal::Hold
            };
            let new_last = if current != Signal::Hold {
                current
            } else {
                last
            };
            (new_last, out)
        },
    }
}

/// A strategy that signals when a short simple moving average of the closes
/// crosses a long one.
pub struct SmaCrossover {
    short_window: usize,
    long_window: usize,
    last_signal: Signal,
}

impl SmaCrossover {
    /// The window of the short average.
    pub closed spec fn short(&self) -> usize {
        self.short_window
    }

    /// The window of the long average.
    pub closed spec fn long(&self) -> usize {
        self.long_window
    }

    /// The last directional signal seen (`Hold` before any).
    pub closed spec fn last(&self) -> Signal {
        self.last_signal
    }

    pub fn new(short_window: usize, long_window: usize) -> (s: Self)
        ensures
            s.short() == short_window,
            s.long() == long_window,
            s.last() == Signal::Hold,
    {
        SmaCrossover { short_window, long_window, last_signal: Signal::Hold }
    }

    /// The window of the short average.
    pub fn short_window(&self) -> (w: usize)
        ensures
            w == self.short(),
    {
        self.short_window
    }

    /// The window of the long average.
    pub fn long_window(&self) -> (w: usize)
        ensures
            w == self.long(),
    {
        self.long_window
    }

    /// Whether a simple moving average over `window` closes can be computed
    /// from `n_closes` closes.
    pub fn sma_available(n_closes: usize, window: usize) -> (b: bool)
        ensures
            b == (n_closes >= window && window != 0),
    {
        !(n_closes < window || window == 0)
    }

    /// The signal for the current trend of the averages (`None` when either
    /// cannot be computed): `Buy` or `Sell` when the direction differs from
    /// the last one seen, `Hold` otherwise.
    pub fn evaluate_trend(&mut self, trend: Option<SmaTrend>) -> (s: Signal)
        ensures
            (final(self).last(), s) == crossover_step(old(self).last(), trend),
            trend == Some(SmaTrend::ShortAbove) && old(self).last() != Signal::Buy ==> s
                == Signal::Buy && final(self).last() == Signal::Buy,
            trend == Some(SmaTrend::ShortBelow) && old(self).last() != Signal::Sell ==> s
                == Signal::Sell && final(self).last() == Signal::Sell,
            trend == Some(SmaTrend::ShortAbove) && old(self).last() == Signal::Buy ==> s
                == Signal::Hold && final(self).last() == Signal::Buy,
            trend == Some(SmaTrend::ShortBelow) && old(self).last() == Signal::Sell ==> s
                == Signal::Hold && final(self).last() == Signal::Sell,
            trend == Some(SmaTrend::Level) || trend is None ==> s == Signal::Hold
                && final(self).last() == old(self).last(),
            final(self).short() == old(self).short(),
            final(self).long() == old(self).long(),
    {
        match trend {
            None => Signal::Hold,
            Some(t) => {
                let current = match t {
                    SmaTrend::ShortAbove => Signal::Buy,
                    SmaTrend::ShortBelow => Signal::Sell,
                    SmaTrend::Level => Signal::Hold,
                };
                let signal_to_return = if current != self.last_signal && current != Signal::Hold {
                    current
                } else {
                    Signal::Hold
                };
                if current != Signal::Hold {
                    self.last_signal = current;
                }
                signal_to_return
            },
        }
    }
}

/// The signals returned over a run of trends, from a last signal `last`.
pub open spec fn crossover_run(last: Signal, trends: Seq<Option<SmaTrend>>) -> (Signal, Seq<Signal>)
    decreases trends.len(),
{
    if trends.len() == 0 {
        (last, seq![])
    } else {
        let (l, outs) = crossover_run(last, trends.drop_last());
        let (l2, o) = crossover_step(l, trends.last());
        (l2, outs.push(o))
    }
}

/// The directional signals among `outs`, in order.
pub open spec fn directional(outs: Seq<Signal>) -> Seq<Signal> {
    outs.filter(|s: Signal| s != Signal::Hold)
}

/// The crossover never repeats itself: over any run of trends from a fresh
/// strategy, the `Buy` and `Sell` signals it returns alternate, and the last
/// one returned is the last direction seen.
pub proof fn crossover_signals_alternate(trends: Seq<Option<SmaTrend>>)
    ensures
        ({
            let (last, outs) = crossover_run(Signal::Hold, trends);
            let d = directional(outs);
            &&& forall|i: int, j: int|
                0 <= i && j == i + 1 && j < d.len() ==> #[trigger] d[i] != #[trigger] d[j]
            &&& d.len() > 0 ==> last == d.last()
            &&& d.len() == 0 ==> last == Signal::Hold
        }),
    decreases trends.len(),
{
    if trends.len() > 0 {
        let prev = trends.drop_last();
        crossover_signals_alternate(prev);
        let (l, outs) = crossover_run(Signal::Hold, prev);
        let (l2, o) = crossover_step(l, trends.last());
        reveal_with_fuel(Seq::filter, 1);
        assert(outs.push(o).drop_last() =~= outs);
        crossover_last_is_directional(prev);
    }
}

/// Over any run from a fresh strategy, the last direction seen is `Hold`
/// before any directional signal, and the last directional signal returned
/// after.
proof fn crossover_last_is_directional(trends: Seq<Option<SmaTrend>>)
    ensures
        ({
            let (last, outs) = crossover_run(Signal::Hold, trends);
            let d = directional(outs);
            &&& d.len() == 0 ==> last == Signal::Hold
            &&& d.len() > 0 ==> last == d.last()
        }),
    decreases trends.len(),
{
    if trends.len() > 0 {
        let prev = trends.drop_last();
        crossover_last_is_directional(prev);
        let (l, outs) = crossover_run(Signal::Hold, prev);
        reveal_with_fuel(Seq::filter, 1);
        assert(outs.push(crossover_step(l, trends.last()).1).drop_last() =~= outs);
    }
}

/// Calls of `evaluate_trend` as a run: `lasts[i]` is the last direction
/// before call `i`, `trends[i]` its argument and `outs[i]` its result.
pub open spec fn is_call_sequence(
    lasts: Seq<Signal>,
    trends: Seq<Option<SmaTrend>>,
    outs: Seq<Signal>,
) -> bool {
    &&& lasts.len() == trends.len() + 1
    &&& outs.len() == trends.len()
    &&& forall|i: int|
        #![trigger trends[i]]
        0 <= i < trends.len() ==> (lasts[i + 1], outs[i]) == crossover_step(lasts[i], trends[i])
}

/// The first `k` calls of a call sequence are the run of their trends.
proof fn call_sequence_is_run(
    lasts: Seq<Signal>,
    trends: Seq<Option<SmaTrend>>,
    outs: Seq<Signal>,
    k: int,
)
    requires
        is_call_sequence(lasts, trends, outs),
        lasts[0] == Signal::Hold,
        0 <= k <= trends.len(),
    ensures
        crossover_run(Signal::Hold, trends.take(k)) == (lasts[k], outs.take(k)),
    decreases k,
{
    if k > 0 {
        call_sequence_is_run(lasts, trends, outs, k - 1);
        assert(trends.take(k).drop_last() =~= trends.take(k - 1));
        assert(trends.take(k).last() == trends[k - 1]);
        assert(outs.take(k - 1).push(outs[k - 1]) =~= outs.take(k));
    } else {
        assert(outs.take(0) =~= Seq::<Signal>::empty());
    }
}

/// The law over calls: on one strategy made by `new`, any sequence of
/// `evaluate_trend` calls returns `Buy` and `Sell` signals that alternate;
/// two successive directional results are never equal.
pub proof fn crossover_calls_alternate(
    lasts: Seq<Signal>,
    trends: Seq<Option<SmaTrend>>,
    outs: Seq<Signal>,
)
    requires
        is_call_sequence(lasts, trends, outs),
        lasts[0] == Signal::Hold,
    ensures
        ({
            let d = directional(outs);
            forall|i: int, j: int|
                0 <= i && j == i + 1 && j < d.len() ==> #[trigger] d[i] != #[trigger] d[j]
        }),
{
    call_sequence_is_run(lasts, trends, outs, trends.len() as int);
    assert(trends.take(trends.len() as int) =~= trends);
    assert(outs.take(trends.len() as int) =~= outs);
    crossover_signals_alternate(trends);
}

/// The confidence threshold law: below the threshold the sentiment strategy
/// holds whatever the LLM decided; at or above it, `BUY` buys, `SELL` sells
/// and any other word holds; without an answer it holds.
pub proof fn sentiment_acts_only_when_confident(word: Seq<char>, confidence: u8, threshold: u8)
    ensures
        confidence < threshold ==> sentiment_signal_spec(Some((word, confidence)), threshold)
            == Signal::Hold,
        confidence >= threshold && word == "BUY"@ ==> sentiment_signal_spec(
            Some((word, confidence)),
            threshold,
        ) == Signal::Buy,
        confidence >= threshold && word == "SELL"@ ==> sentiment_signal_spec(
            Some((word, confidence)),
            threshold,
        ) == Signal::Sell,
        word != "BUY"@ && word != "SELL"@ ==> sentiment_signal_spec(
            Some((word, confidence)),
            threshold,
        ) == Signal::Hold,
        sentiment_signal_spec(None, threshold) == Signal::Hold,
{
    reveal_strlit("BUY");
    reveal_strlit("SELL");
    if word == "BUY"@ {
        assert(word != "SELL"@) by {
            assert(word.len() != "SELL"@.len());
        }
    }
}

/// The crossover law for one evaluation: a present trend pointing up buys,
/// and one pointing down sells, exactly when that direction differs from the
/// last one seen, and then becomes the last direction; the same direction
/// again, a level trend or no trend holds without changing the last
/// direction.
pub proof fn crossover_signals_direction_changes(last: Signal)
    ensures
        last != Signal::Buy ==> crossover_step(last, Some(SmaTrend::ShortAbove)) == (
            Signal::Buy,
            Signal::Buy,
        ),
        last != Signal::Sell ==> crossover_step(last, Some(SmaTrend::ShortBelow)) == (
            Signal::Sell,
            Signal::Sell,
        ),
        last == Signal::Buy ==> crossover_step(last, Some(SmaTrend::ShortAbove)) == (
            Signal::Buy,
            Signal::Hold,
        ),
        last == Signal::Sell ==> crossover_step(last, Some(SmaTrend::ShortBelow)) == (
            Signal::Sell,
            Signal::Hold,
        ),
        crossover_step(last, Some(SmaTrend::Level)) == (last, Signal::Hold),
        crossover_step(last, None) == (last, Signal::Hold),
{
}

} // verus!
