use kraken_cli::bot::llm::{clean_llm_content, LlmDecision};
use kraken_cli::bot::news::{get_base_asset as news_base_asset, news_category, titles_or_fallback};
use kraken_cli::bot::screener::usd_base_asset;
use kraken_cli::bot::strategy::{LlmSentimentStrategy, Signal, SmaCrossover, SmaTrend};
use kraken_cli::bot::telegram::{next_update_offset, notifier_settings};
use kraken_cli::bot::{
    get_base_asset, get_quote_asset, market_news_fallback, BotController, LoopAction,
    CONFIDENCE_THRESHOLD, MAX_CANDIDATES_PER_CYCLE, MAX_CONSECUTIVE_ERRORS,
};

#[test]
fn quote_and_base_of_pairs() {
    assert_eq!(get_quote_asset("BTC/USD"), "USD");
    assert_eq!(get_base_asset("BTC/USD"), "BTC");
    assert_eq!(get_quote_asset("XBTUSD"), "USD");
    assert_eq!(get_base_asset("XBTUSD"), "XBT");
    assert_eq!(get_quote_asset("ETHEUR"), "EUR");
    assert_eq!(get_base_asset("ETHEUR"), "ETH");
    assert_eq!(get_quote_asset("EUR"), "USD");
    assert_eq!(get_base_asset("EUR"), "BTC");
    assert_eq!(get_quote_asset("A/B/C"), "C");
    assert_eq!(get_base_asset("A/B/C"), "A");
}

#[test]
fn kill_switch_after_three_failures_in_a_row() {
    let mut c = BotController::new();
    c.start_cycle();
    assert_eq!(c.record_news(false), LoopAction::Continue);
    assert_eq!(c.record_ohlc(false), LoopAction::SkipAsset);
    assert_eq!(c.consecutive_errors(), 2);
    assert_eq!(c.record_ohlc(false), LoopAction::KillSwitch);
    assert_eq!(MAX_CONSECUTIVE_ERRORS, 3);
}

#[test]
fn success_resets_failure_count() {
    let mut c = BotController::new();
    assert_eq!(c.record_news(false), LoopAction::Continue);
    assert_eq!(c.record_ohlc(false), LoopAction::SkipAsset);
    assert_eq!(c.record_ohlc(true), LoopAction::Continue);
    assert_eq!(c.consecutive_errors(), 0);
    assert_eq!(c.record_news(false), LoopAction::Continue);
    assert_eq!(c.record_news(false), LoopAction::Continue);
    assert_eq!(c.record_news(false), LoopAction::KillSwitch);
}

#[test]
fn at_most_ten_candidates_per_cycle() {
    let mut c = BotController::new();
    c.start_cycle();
    let mut accepted = 0;
    while c.may_evaluate_more() {
        c.accept_candidate();
        accepted += 1;
    }
    assert_eq!(accepted, MAX_CANDIDATES_PER_CYCLE);
    assert_eq!(accepted, 10);
    c.start_cycle();
    assert!(c.may_evaluate_more());
}

#[test]
fn fallback_market_news() {
    assert_eq!(
        market_news_fallback(),
        vec!["Market shows general volatility.".to_string()]
    );
}

#[test]
fn sma_crossover_signals_only_on_change() {
    let mut s = SmaCrossover::new(5, 20);
    assert_eq!(s.short_window(), 5);
    assert_eq!(s.long_window(), 20);
    assert_eq!(s.evaluate_trend(None), Signal::Hold);
    assert_eq!(s.evaluate_trend(Some(SmaTrend::ShortAbove)), Signal::Buy);
    assert_eq!(s.evaluate_trend(Some(SmaTrend::ShortAbove)), Signal::Hold);
    assert_eq!(s.evaluate_trend(Some(SmaTrend::Level)), Signal::Hold);
    assert_eq!(s.evaluate_trend(Some(SmaTrend::ShortAbove)), Signal::Hold);
    assert_eq!(s.evaluate_trend(Some(SmaTrend::ShortBelow)), Signal::Sell);
    assert_eq!(s.evaluate_trend(Some(SmaTrend::ShortBelow)), Signal::Hold);
    assert_eq!(s.evaluate_trend(Some(SmaTrend::ShortAbove)), Signal::Buy);
}

#[test]
fn sma_availability() {
    assert!(!SmaCrossover::sma_available(4, 5));
    assert!(SmaCrossover::sma_available(5, 5));
    assert!(!SmaCrossover::sma_available(5, 0));
}

#[test]
fn llm_decision_signals() {
    let d = |w: &str, c: u8| LlmDecision { decision: w.to_string(), confidence: c };
    assert_eq!(d("BUY", 90).to_signal(), Signal::Buy);
    assert_eq!(d("SELL", 90).to_signal(), Signal::Sell);
    assert_eq!(d("HOLD", 90).to_signal(), Signal::Hold);
    assert_eq!(d("buy", 90).to_signal(), Signal::Hold);
}

#[test]
fn sentiment_threshold() {
    let s = LlmSentimentStrategy::new((), CONFIDENCE_THRESHOLD);
    let d = |w: &str, c: u8| LlmDecision { decision: w.to_string(), confidence: c };
    assert_eq!(s.signal_for(Some(&d("BUY", 55))), Signal::Buy);
    assert_eq!(s.signal_for(Some(&d("BUY", 54))), Signal::Hold);
    assert_eq!(s.signal_for(Some(&d("SELL", 80))), Signal::Sell);
    assert_eq!(s.signal_for(None), Signal::Hold);
    assert_eq!(s.signal_for(Some(&LlmDecision::without_api_key())), Signal::Hold);
    assert_eq!(s.signal_for(Some(&LlmDecision::unreadable_reply())), Signal::Hold);
}

#[test]
fn sentiment_news_fallback() {
    let s = LlmSentimentStrategy::new((), 55);
    let empty: Vec<String> = Vec::new();
    let used = s.news_to_use(&empty);
    assert_eq!(used.len(), 1);
    assert!(used[0].starts_with("Nessuna notizia recente."));
    let news = vec!["a".to_string(), "b".to_string()];
    assert_eq!(s.news_to_use(&news), news);
}

#[test]
fn llm_reply_cleaning() {
    assert_eq!(
        clean_llm_content("```json\n{\"decision\":\"BUY\",\"confidence\":70}\n```"),
        "{\"decision\":\"BUY\",\"confidence\":70}"
    );
    assert_eq!(clean_llm_content("  ```\n{}\n```  "), "{}");
    assert_eq!(clean_llm_content("{\"a\":1}"), "{\"a\":1}");
    assert_eq!(clean_llm_content("``````json x ``````"), "json x");
    let raw = " ```json```json {} `````` ";
    let std_clean = raw
        .trim()
        .trim_start_matches("```json")
        .trim_start_matches("```")
        .trim_end_matches("```")
        .trim();
    assert_eq!(clean_llm_content(raw), std_clean);
}

#[test]
fn news_categories() {
    assert_eq!(news_base_asset("ETH/USD"), "ETH");
    assert_eq!(news_base_asset("SOL"), "SOL");
    assert_eq!(news_category("xbt"), "BTC");
    assert_eq!(news_category("XBT/USD"), "BTC");
    assert_eq!(news_category("MARKET"), "BTC,ETH");
    assert_eq!(news_category("sol/usd"), "SOL");
}

#[test]
fn news_fallback_titles() {
    let fetched = vec!["Headline".to_string()];
    assert_eq!(titles_or_fallback(fetched.clone(), "BTC"), fetched);
    let fallback = titles_or_fallback(Vec::new(), "SOL");
    assert_eq!(
        fallback,
        vec![
            "SOL continues to show strong bullish momentum amid market uncertainty.".to_string(),
            "New regulations might negatively affect SOL trading volumes in Europe.".to_string(),
            "Institutional investors are accumulating SOL after the recent dip.".to_string(),
        ]
    );
}

#[test]
fn screener_bases() {
    assert_eq!(usd_base_asset("XXBTZUSD"), Some("XBT".to_string()));
    assert_eq!(usd_base_asset("XETHZUSD"), Some("ETH".to_string()));
    assert_eq!(usd_base_asset("SOLUSD"), Some("SOL".to_string()));
    assert_eq!(usd_base_asset("XRPUSD"), Some("XRP".to_string()));
    assert_eq!(usd_base_asset("XTZUSD"), Some("XT".to_string()));
    assert_eq!(usd_base_asset("DAIUSD"), None);
    assert_eq!(usd_base_asset("XBTEUR"), None);
    assert_eq!(usd_base_asset("USDCUSD"), Some("C".to_string()));
    assert_eq!(usd_base_asset("FDUSDUSD"), Some("FD".to_string()));
}

#[test]
fn telegram_offsets() {
    assert_eq!(next_update_offset(0, &vec![]), 0);
    assert_eq!(next_update_offset(10, &vec![3, 12, 7]), 13);
    assert_eq!(next_update_offset(100, &vec![3, 12]), 100);
}

#[test]
fn telegram_settings() {
    assert_eq!(
        notifier_settings(Some("t".into()), Some("c".into())),
        Some(("t".to_string(), "c".to_string()))
    );
    assert_eq!(notifier_settings(Some("".into()), Some("c".into())), None);
    assert_eq!(notifier_settings(None, Some("c".into())), None);
    assert_eq!(notifier_settings(Some("t".into()), None), None);
}

#[test]
fn base_and_quote_rebuild_the_pair() {
    for p in ["ETH/USD", "XBTUSD", "DOGEUSDT", "a/b"] {
        let rebuilt = if p.contains('/') {
            format!("{}/{}", get_base_asset(p), get_quote_asset(p))
        } else {
            format!("{}{}", get_base_asset(p), get_quote_asset(p))
        };
        assert_eq!(rebuilt, p);
    }
}

#[test]
fn categories_for_upper_case_bases() {
    assert_eq!(kraken_cli::bot::news::category_for_base("XBT".to_string()), "BTC");
    assert_eq!(kraken_cli::bot::news::category_for_base("MARKET".to_string()), "BTC,ETH");
    assert_eq!(kraken_cli::bot::news::category_for_base("ETH".to_string()), "ETH");
    assert_eq!(kraken_cli::bot::news::category_for_base("xbt".to_string()), "xbt");
}
