//! Insights on an asset in words: the deterministic summary derived from
//! its metrics, and the notes made from a set of insights.

use vstd::prelude::*;
use vstd::string::StringExecFns;
use crate::completion::{narrative_or, narrative_text, Completion};
use crate::fixed::{FINE, SCALE};
use crate::text::{
    decimal_text, natural_text, push_decimal, push_natural, join_strings, joined, texts,
    lemma_texts_push, TEXT_LIMIT,
};

verus! {

/// Insights on one asset.
#[derive(Clone, Debug)]
pub struct AssetInsights {
    pub asset: String,
    pub trading_notes: Vec<String>,
    pub risk_assessment: String,
    pub execution_recommendations: Vec<String>,
    pub market_context: String,
}

/// The metrics of one asset that insights are asked for. Ratios are in
/// units of `1 / SCALE`; win rate and maximum drawdown are in percent.
#[derive(Clone, Debug)]
pub struct AssetMetrics {
    pub asset: String,
    /// In fine units, `FINE` standing for `1`.
    pub total_return: i128,
    pub sharpe_ratio: i128,
    pub win_rate: i128,
    pub max_drawdown: i128,
    pub trading_days: u32,
    pub profit_factor: crate::stats::ProfitFactor,
    pub current_price: i128,
    pub ma30: i128,
    pub ma7: i128,
    pub rs_ma7: i128,
    pub rs_ma30: i128,
    pub atr_14: i128,
    pub volatility: Option<i128>,
}

/// The note on the size of the total return, which is in fine units.
pub open spec fn return_note(total_return: int) -> Seq<char> {
    if total_return > 1000 * FINE {
        "Exceptional momentum - consider scaling in gradually to manage volatility risk"@
    } else if total_return > 100 * FINE {
        "Strong momentum trend - monitor for continuation signals"@
    } else if total_return > 10 * FINE {
        "Solid performance - suitable for core portfolio allocation"@
    } else {
        "Conservative performance - consider for risk management"@
    }
}

/// The risk assessment, by the size of the total return, which is in fine
/// units.
pub open spec fn risk_text(total_return: int) -> Seq<char> {
    if total_return > 1000 * FINE {
        "High return potential but extreme volatility risk"@
    } else if total_return > 100 * FINE {
        "High return with moderate volatility"@
    } else if total_return > 10 * FINE {
        "Moderate risk with good return potential"@
    } else {
        "Low risk, modest returns"@
    }
}

/// The note on the Sharpe ratio.
pub open spec fn sharpe_note(sharpe: int) -> Seq<char> {
    if sharpe > 2 * SCALE {
        "Excellent risk-adjusted returns - increase position size"@
    } else if sharpe > SCALE {
        "Good risk-adjusted performance - maintain current sizing"@
    } else {
        "Lower risk-adjusted returns - consider reducing position size"@
    }
}

/// The recommendation on the position size, by the Sharpe ratio.
pub open spec fn sizing_recommendation(sharpe: int) -> Seq<char> {
    if sharpe > 2 * SCALE {
        "Consider larger position size due to high Sharpe ratio"@
    } else if sharpe > SCALE {
        "Standard position sizing appropriate"@
    } else {
        "Consider smaller position size due to lower Sharpe ratio"@
    }
}

/// The trading notes of the summary: on the return, on the Sharpe ratio,
/// on a win rate above 80% or below 50%, and on a drawdown above 20%. The
/// total return is in fine units, win rate and drawdown are in percent.
pub open spec fn fallback_notes(
    total_return: int,
    sharpe: int,
    win_rate_percent: int,
    max_drawdown_percent: int,
) -> Seq<Seq<char>> {
    seq![return_note(total_return), sharpe_note(sharpe)] + (if win_rate_percent > 80 * SCALE {
        seq!["High win rate suggests strong signal quality"@]
    } else if win_rate_percent < 50 * SCALE {
        seq!["Low win rate - review entry criteria and market conditions"@]
    } else {
        Seq::empty()
    }) + (if max_drawdown_percent > 20 * SCALE {
        seq!["High drawdown risk - implement strict stop losses"@]
    } else {
        Seq::empty()
    })
}

/// The recommendations of the summary: on the position size, and on stops
/// where the drawdown is above 20%.
pub open spec fn fallback_recommendations(sharpe: int, max_drawdown_percent: int) -> Seq<
    Seq<char>,
> {
    seq![sizing_recommendation(sharpe)] + (if max_drawdown_percent > 20 * SCALE {
        seq!["Use tighter stop losses to manage drawdown risk"@]
    } else {
        Seq::empty()
    })
}

/// The summary of an asset derived from its metrics alone. The total
/// return is in fine units, win rate and drawdown are in percent.
pub fn generate_fallback_insights(
    asset: &str,
    total_return: i128,
    sharpe_ratio: i128,
    win_rate: i128,
    max_drawdown: i128,
) -> (insights: AssetInsights)
    ensures
        insights.asset@ == asset@,
        texts(insights.trading_notes@) == fallback_notes(
            total_return as int,
            sharpe_ratio as int,
            win_rate as int,
            max_drawdown as int,
        ),
        insights.risk_assessment@ == risk_text(total_return as int),
        texts(insights.execution_recommendations@) == fallback_recommendations(
            sharpe_ratio as int,
            max_drawdown as int,
        ),
        insights.market_context@ == "Market analysis unavailable - using fallback metrics"@,
{
    let mut trading_notes: Vec<String> = Vec::new();
    let mut execution_recommendations: Vec<String> = Vec::new();
    let risk_assessment: String;
    if total_return > 1000 * FINE {
        trading_notes.push(
            "Exceptional momentum - consider scaling in gradually to manage volatility risk".to_owned(),
        );
        risk_assessment = "High return potential but extreme volatility risk".to_owned();
    } else if total_return > 100 * FINE {
        trading_notes.push("Strong momentum trend - monitor for continuation signals".to_owned());
        risk_assessment = "High return with moderate volatility".to_owned();
    } else if total_return > 10 * FINE {
        trading_notes.push("Solid performance - suitable for core portfolio allocation".to_owned());
        risk_assessment = "Moderate risk with good return potential".to_owned();
    } else {
        trading_notes.push("Conservative performance - consider for risk management".to_owned());
        risk_assessment = "Low risk, modest returns".to_owned();
    }
    if sharpe_ratio > 2 * SCALE {
        trading_notes.push("Excellent risk-adjusted returns - increase position size".to_owned());
        execution_recommendations.push(
            "Consider larger position size due to high Sharpe ratio".to_owned(),
        );
    } else if sharpe_ratio > SCALE {
        trading_notes.push("Good risk-adjusted performance - maintain current sizing".to_owned());
        execution_recommendations.push("Standard position sizing appropriate".to_owned());
    } else {
        trading_notes.push(
            "Lower risk-adjusted returns - consider reducing position size".to_owned(),
        );
        execution_recommendations.push(
            "Consider smaller position size due to lower Sharpe ratio".to_owned(),
        );
    }
    if win_rate > 80 * SCALE {
        trading_notes.push("High win rate suggests strong signal quality".to_owned());
    } else if win_rate < 50 * SCALE {
        trading_notes.push("Low win rate - review entry criteria and market conditions".to_owned());
    }
    if max_drawdown > 20 * SCALE {
        trading_notes.push("High drawdown risk - implement strict stop losses".to_owned());
        execution_recommendations.push("Use tighter stop losses to manage drawdown risk".to_owned());
    }
    proof {
        assert(texts(trading_notes@) =~= fallback_notes(
            total_return as int,
            sharpe_ratio as int,
            win_rate as int,
            max_drawdown as int,
        ));
        assert(texts(execution_recommendations@) =~= fallback_recommendations(
            sharpe_ratio as int,
            max_drawdown as int,
        ));
    }
    AssetInsights {
        asset: asset.to_owned(),
        trading_notes,
        risk_assessment,
        execution_recommendations,
        market_context: "Market analysis unavailable - using fallback metrics".to_owned(),
    }
}

/// The parts of the notes made from a set of insights: the trading notes,
/// the risk assessment, the recommendations and the market context.
pub open spec fn insight_note_parts(insights: AssetInsights) -> Seq<Seq<char>> {
    texts(insights.trading_notes@) + seq!["Risk: "@ + insights.risk_assessment@] + texts(
        insights.execution_recommendations@,
    ) + seq!["Context: "@ + insights.market_context@]
}

/// The notes of a plan made from a set of insights.
pub fn notes_from_insights(insights: &AssetInsights) -> (notes: String)
    ensures
        notes@ == joined(insight_note_parts(*insights), "; "@),
{
    let mut parts: Vec<String> = Vec::new();
    let mut i: usize = 0;
    while i < insights.trading_notes.len()
        invariant
            i <= insights.trading_notes.len(),
            texts(parts@) == texts(insights.trading_notes@).subrange(0, i as int),
        decreases insights.trading_notes.len() - i,
    {
        let ghost before = parts@;
        let note = insights.trading_notes[i].clone();
        parts.push(note);
        proof {
            lemma_texts_push(before, note);
            assert(texts(insights.trading_notes@).subrange(0, i + 1) =~= texts(
                insights.trading_notes@,
            ).subrange(0, i as int).push(insights.trading_notes[i as int]@));
        }
        i = i + 1;
    }
    let mut risk = "Risk: ".to_owned();
    risk.append(insights.risk_assessment.as_str());
    let ghost notes_only = parts@;
    parts.push(risk);
    let ghost head = texts(parts@);
    proof {
        lemma_texts_push(notes_only, risk);
        assert(texts(insights.trading_notes@).subrange(
            0,
            insights.trading_notes.len() as int,
        ) =~= texts(insights.trading_notes@));
        assert(head =~= texts(insights.trading_notes@) + seq![
            "Risk: "@ + insights.risk_assessment@,
        ]);
        assert(head =~= head + texts(insights.execution_recommendations@).subrange(0, 0));
    }
    let mut k: usize = 0;
    while k < insights.execution_recommendations.len()
        invariant
            k <= insights.execution_recommendations.len(),
            texts(parts@) == head + texts(insights.execution_recommendations@).subrange(
                0,
                k as int,
            ),
        decreases insights.execution_recommendations.len() - k,
    {
        let ghost before = parts@;
        let rec = insights.execution_recommendations[k].clone();
        parts.push(rec);
        proof {
            lemma_texts_push(before, rec);
            assert(texts(insights.execution_recommendations@).subrange(0, k + 1) =~= texts(
                insights.execution_recommendations@,
            ).subrange(0, k as int).push(insights.execution_recommendations[k as int]@));
            assert(texts(parts@) =~= head + texts(insights.execution_recommendations@).subrange(
                0,
                k + 1,
            ));
        }
        k = k + 1;
    }
    let mut context = "Context: ".to_owned();
    context.append(insights.market_context.as_str());
    let ghost before = parts@;
    parts.push(context);
    proof {
        lemma_texts_push(before, context);
        assert(texts(insights.execution_recommendations@).subrange(
            0,
            insights.execution_recommendations.len() as int,
        ) =~= texts(insights.execution_recommendations@));
        assert(texts(parts@) =~= insight_note_parts(*insights));
    }
    join_strings(&parts, "; ")
}

/// The notes of a plan made from the summary of its metrics.
pub fn notes_from_fallback(insights: &AssetInsights) -> (notes: String)
    ensures
        notes@ == joined(texts(insights.trading_notes@), "; "@) + "; Risk: "@
            + insights.risk_assessment@ + "; Recommendations: "@ + joined(
            texts(insights.execution_recommendations@),
            "; "@,
        ),
{
    let mut notes = join_strings(&insights.trading_notes, "; ");
    notes.append("; Risk: ");
    notes.append(insights.risk_assessment.as_str());
    notes.append("; Recommendations: ");
    let recs = join_strings(&insights.execution_recommendations, "; ");
    notes.append(recs.as_str());
    notes
}

/// The insights on an asset: those read from the reply of the narrative
/// service, or the summary of the metrics where none could be read.
pub fn generate_asset_insights(read: Option<AssetInsights>, metrics: &AssetMetrics) -> (insights:
    AssetInsights)
    ensures
        read matches Some(r) ==> insights == r,
        read is None ==> {
            &&& insights.asset@ == metrics.asset@
            &&& texts(insights.trading_notes@) == fallback_notes(
                metrics.total_return as int,
                metrics.sharpe_ratio as int,
                metrics.win_rate as int,
                metrics.max_drawdown as int,
            )
            &&& insights.risk_assessment@ == risk_text(metrics.total_return as int)
            &&& texts(insights.execution_recommendations@) == fallback_recommendations(
                metrics.sharpe_ratio as int,
                metrics.max_drawdown as int,
            )
            &&& insights.market_context@ == "Market analysis unavailable - using fallback metrics"@
        },
{
    match read {
        Some(r) => r,
        None => generate_fallback_insights(
            metrics.asset.as_str(),
            metrics.total_return,
            metrics.sharpe_ratio,
            metrics.win_rate,
            metrics.max_drawdown,
        ),
    }
}

/// The notes on an asset that are derived from its metrics alone: the
/// summary of the metrics, made into notes. This is what stands in for the
/// narrative service when it is not asked or does not answer.
pub open spec fn offline_notes_text(m: AssetMetrics) -> Seq<char> {
    joined(
        fallback_notes(
            m.total_return as int,
            m.sharpe_ratio as int,
            m.win_rate as int,
            m.max_drawdown as int,
        ),
        "; "@,
    ) + "; Risk: "@ + risk_text(m.total_return as int) + "; Recommendations: "@ + joined(
        fallback_recommendations(m.sharpe_ratio as int, m.max_drawdown as int),
        "; "@,
    )
}

/// The notes on an asset that are derived from its metrics alone.
pub fn summarize_offline(metrics: &AssetMetrics) -> (notes: String)
    ensures
        notes@ == offline_notes_text(*metrics),
{
    let derived = generate_fallback_insights(
        metrics.asset.as_str(),
        metrics.total_return,
        metrics.sharpe_ratio,
        metrics.win_rate,
        metrics.max_drawdown,
    );
    notes_from_fallback(&derived)
}

/// The mood of the market by the change of its capitalisation in a day.
#[derive(Clone, Copy, Debug, PartialEq, Eq)]
pub enum Sentiment {
    Bullish,
    Bearish,
    Neutral,
}

/// Bullish above a rise of five percent, bearish below a fall of five
/// percent, else neutral. The change is in percent.
pub open spec fn sentiment_of(market_cap_change: int) -> Sentiment {
    if market_cap_change > 5 * SCALE {
        Sentiment::Bullish
    } else if market_cap_change < -5 * SCALE {
        Sentiment::Bearish
    } else {
        Sentiment::Neutral
    }
}

/// The mood of the market.
pub fn market_sentiment(market_cap_change: i128) -> (s: Sentiment)
    ensures
        s == sentiment_of(market_cap_change as int),
{
    if market_cap_change > 5 * SCALE {
        Sentiment::Bullish
    } else if market_cap_change < -5 * SCALE {
        Sentiment::Bearish
    } else {
        Sentiment::Neutral
    }
}

impl Sentiment {
    /// The word for the mood.
    pub open spec fn text(self) -> Seq<char> {
        match self {
            Sentiment::Bullish => "bullish"@,
            Sentiment::Bearish => "bearish"@,
            Sentiment::Neutral => "neutral"@,
        }
    }

    /// The word for the mood.
    pub fn as_str(&self) -> (t: &'static str)
        ensures
            t@ == self.text(),
    {
        match self {
            Sentiment::Bullish => "bullish",
            Sentiment::Bearish => "bearish",
            Sentiment::Neutral => "neutral",
        }
    }
}


/// The share of profitable strategies in percent with one decimal place,
/// or `NaN` where there is no strategy.
pub open spec fn success_rate_text(total: usize, profitable: usize) -> Seq<char> {
    if total == 0 {
        "NaN"@
    } else {
        decimal_text(crate::fixed::ratio(profitable as int, total as int) * 100, 1)
    }
}

/// Appends the share of profitable strategies in percent.
pub fn push_success_rate(s: &mut String, total: usize, profitable: usize)
    ensures
        final(s)@ == old(s)@ + success_rate_text(total, profitable),
{
    if total == 0 {
        s.append("NaN");
    } else {
        let share = crate::fixed::ratio_of(profitable as i128, total as i128);
        push_decimal(s, share * 100, 1);
    }
}

/// The analysis of a portfolio derived from its figures alone. Average
/// return and win rate are in percent.
pub open spec fn portfolio_analysis_text(
    total: usize,
    profitable: usize,
    avg_return: int,
    avg_sharpe: int,
    avg_win_rate: int,
    market_conditions: Seq<char>,
) -> Seq<char> {
    "Portfolio Analysis: "@ + natural_text(profitable as nat) + " profitable strategies out of "@
        + natural_text(total as nat) + " total ("@ + success_rate_text(total, profitable)
        + "% success rate). Average return: "@ + decimal_text(avg_return, 1)
        + "%, Average Sharpe: "@ + decimal_text(avg_sharpe, 2) + ", Average win rate: "@
        + decimal_text(avg_win_rate, 1) + "%. Market conditions: "@ + market_conditions
        + ". Top performers show strong momentum characteristics."@
}

/// The analysis of a portfolio derived from its figures alone.
pub fn portfolio_fallback_analysis(
    total_strategies: usize,
    profitable_strategies: usize,
    avg_return: i128,
    avg_sharpe: i128,
    avg_win_rate: i128,
    market_conditions: &str,
) -> (t: String)
    requires
        -TEXT_LIMIT <= avg_return <= TEXT_LIMIT,
        -TEXT_LIMIT <= avg_sharpe <= TEXT_LIMIT,
        -TEXT_LIMIT <= avg_win_rate <= TEXT_LIMIT,
    ensures
        t@ == portfolio_analysis_text(
            total_strategies,
            profitable_strategies,
            avg_return as int,
            avg_sharpe as int,
            avg_win_rate as int,
            market_conditions@,
        ),
{
    let mut t = "Portfolio Analysis: ".to_owned();
    push_natural(&mut t, profitable_strategies as u128);
    t.append(" profitable strategies out of ");
    push_natural(&mut t, total_strategies as u128);
    t.append(" total (");
    push_success_rate(&mut t, total_strategies, profitable_strategies);
    t.append("% success rate). Average return: ");
    push_decimal(&mut t, avg_return, 1);
    t.append("%, Average Sharpe: ");
    push_decimal(&mut t, avg_sharpe, 2);
    t.append(", Average win rate: ");
    push_decimal(&mut t, avg_win_rate, 1);
    t.append("%. Market conditions: ");
    t.append(market_conditions);
    t.append(". Top performers show strong momentum characteristics.");
    t
}

/// The analysis of a portfolio: the text of the reply of the narrative
/// service, or where it holds none the analysis derived from the figures.
pub fn generate_portfolio_insights(
    reply: Completion,
    total_strategies: usize,
    profitable_strategies: usize,
    avg_return: i128,
    avg_sharpe: i128,
    avg_win_rate: i128,
    market_conditions: &str,
) -> (t: String)
    requires
        -TEXT_LIMIT <= avg_return <= TEXT_LIMIT,
        -TEXT_LIMIT <= avg_sharpe <= TEXT_LIMIT,
        -TEXT_LIMIT <= avg_win_rate <= TEXT_LIMIT,
    ensures
        t@ == narrative_text(
            reply,
            portfolio_analysis_text(
                total_strategies,
                profitable_strategies,
                avg_return as int,
                avg_sharpe as int,
                avg_win_rate as int,
                market_conditions@,
            ),
        ),
{
    let derived = portfolio_fallback_analysis(
        total_strategies,
        profitable_strategies,
        avg_return,
        avg_sharpe,
        avg_win_rate,
        market_conditions,
    );
    narrative_or(reply, derived)
}

/// The text of an index of fear and greed, or `N/A` where there is none.
pub open spec fn index_text(fear_greed_index: Option<i32>) -> Seq<char> {
    match fear_greed_index {
        Some(i) => crate::text::integer_text(i as int),
        None => "N/A"@,
    }
}

/// The context of the market derived from its figures alone. Prices are
/// in ticks, the change is in percent.
pub open spec fn market_context_text(
    btc_price: int,
    eth_price: int,
    market_cap_change: int,
    fear_greed_index: Option<i32>,
) -> Seq<char> {
    "Market Context: BTC at $"@ + decimal_text(btc_price, 2) + ", ETH at $"@ + decimal_text(
        eth_price,
        2,
    ) + ", 24h change: "@ + decimal_text(market_cap_change, 2)
        + "%. Market sentiment appears "@ + sentiment_of(market_cap_change).text()
        + ". Fear & Greed Index: "@ + index_text(fear_greed_index)
        + ". Momentum strategies may benefit from current market structure."@
}

/// The context of the market derived from its figures alone.
pub fn market_fallback_context(
    btc_price: i128,
    eth_price: i128,
    market_cap_change: i128,
    fear_greed_index: Option<i32>,
) -> (t: String)
    requires
        -TEXT_LIMIT <= btc_price <= TEXT_LIMIT,
        -TEXT_LIMIT <= eth_price <= TEXT_LIMIT,
        -TEXT_LIMIT <= market_cap_change <= TEXT_LIMIT,
    ensures
        t@ == market_context_text(
            btc_price as int,
            eth_price as int,
            market_cap_change as int,
            fear_greed_index,
        ),
{
    let mut t = "Market Context: BTC at $".to_owned();
    push_decimal(&mut t, btc_price, 2);
    t.append(", ETH at $");
    push_decimal(&mut t, eth_price, 2);
    t.append(", 24h change: ");
    push_decimal(&mut t, market_cap_change, 2);
    t.append("%. Market sentiment appears ");
    t.append(market_sentiment(market_cap_change).as_str());
    t.append(". Fear & Greed Index: ");
    match fear_greed_index {
        Some(i) => {
            crate::text::push_integer(&mut t, i as i64);
        },
        None => {
            t.append("N/A");
        },
    }
    t.append(". Momentum strategies may benefit from current market structure.");
    t
}

/// The context of the market: the text of the reply of the narrative
/// service, or where it holds none the context derived from the figures.
pub fn generate_market_context(
    reply: Completion,
    btc_price: i128,
    eth_price: i128,
    market_cap_change: i128,
    fear_greed_index: Option<i32>,
) -> (t: String)
    requires
        -TEXT_LIMIT <= btc_price <= TEXT_LIMIT,
        -TEXT_LIMIT <= eth_price <= TEXT_LIMIT,
        -TEXT_LIMIT <= market_cap_change <= TEXT_LIMIT,
    ensures
        t@ == narrative_text(
            reply,
            market_context_text(
                btc_price as int,
                eth_price as int,
                market_cap_change as int,
                fear_greed_index,
            ),
        ),
{
    let derived = market_fallback_context(btc_price, eth_price, market_cap_change, fear_greed_index);
    narrative_or(reply, derived)
}

} // verus!
