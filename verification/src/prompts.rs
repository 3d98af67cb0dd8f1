//! The questions that are put to the narrative service.

use vstd::prelude::*;
use vstd::string::StringExecFns;
use crate::export::{opt_writable, writable};
use crate::insights::AssetMetrics;
use crate::stats::ProfitFactor;
use crate::text::{
    decimal_text, fine_text, integer_text, natural_text, push_decimal, push_fine, push_integer,
    push_natural, texts, joined, join_strings, lemma_texts_push,
};

verus! {

/// The text of a profit factor with two decimal places, `inf` for an
/// infinite one.
pub open spec fn factor_text(pf: ProfitFactor) -> Seq<char> {
    match pf {
        ProfitFactor::Infinite => "inf"@,
        ProfitFactor::Finite(v) => decimal_text(v as int, 2),
    }
}

/// The text of a volatility with two decimal places, `NaN` where it is
/// not a number.
pub open spec fn volatility_text(v: Option<i128>) -> Seq<char> {
    match v {
        Some(x) => decimal_text(x as int, 2),
        None => "NaN"@,
    }
}

/// A relative strength in units of `1 / RS_SCALE` as a ratio in units of
/// `1 / SCALE`, rounded down.
pub open spec fn rs_ratio(rs: i128) -> int {
    rs / 100_000_000
}

/// Every number of the metrics can be written.
pub open spec fn metrics_writable(m: AssetMetrics) -> bool {
    &&& writable(m.total_return)
    &&& writable(m.sharpe_ratio)
    &&& writable(m.win_rate)
    &&& writable(m.max_drawdown)
    &&& (m.profit_factor matches ProfitFactor::Finite(v) ==> writable(v))
    &&& writable(m.current_price)
    &&& writable(m.ma30)
    &&& writable(m.ma7)
    &&& writable(rs_ratio(m.rs_ma7) as i128)
    &&& writable(rs_ratio(m.rs_ma30) as i128)
    &&& writable(m.atr_14)
    &&& opt_writable(m.volatility)
}

/// The question about one asset: its metrics, what is asked for, and the
/// form of the answer.
pub open spec fn asset_prompt_text(m: AssetMetrics) -> Seq<char> {
    "You are a quantitative trading analyst specializing in cryptocurrency momentum strategies. Analyze this trading strategy performance and provide actionable insights.\n\nASSET: "@
        + m.asset@ + "\nPERFORMANCE METRICS:\n- Total Return: "@ + fine_text(
        m.total_return as int,
        2,
    ) + "%\n- Sharpe Ratio: "@ + decimal_text(m.sharpe_ratio as int, 2) + "\n- Win Rate: "@
        + decimal_text(m.win_rate as int, 1) + "%\n- Max Drawdown: "@ + decimal_text(
        m.max_drawdown as int,
        2,
    ) + "%\n- Trading Days: "@ + natural_text(m.trading_days as nat) + "\n- Profit Factor: "@
        + factor_text(m.profit_factor) + "\n\nCURRENT MARKET DATA:\n- Current Price: $"@
        + decimal_text(m.current_price as int, 2) + "\n- MA30: $"@ + decimal_text(m.ma30 as int, 2)
        + "\n- MA7: $"@ + decimal_text(m.ma7 as int, 2) + "\n- RS vs BTC (MA7): "@ + decimal_text(
        rs_ratio(m.rs_ma7),
        2,
    ) + "\n- RS vs BTC (MA30): "@ + decimal_text(rs_ratio(m.rs_ma30), 2) + "\n- ATR(14): $"@
        + decimal_text(m.atr_14 as int, 2) + "\n- Volatility: "@ + volatility_text(m.volatility)
        + "%\n\nPlease provide:\n1. 3-5 specific trading notes (execution tips, market conditions, risk factors)\n2. Risk assessment (1-2 sentences on risk level and key concerns)\n3. 2-3 execution recommendations (entry/exit strategies, position sizing)\n4. Market context (1-2 sentences on current market conditions and outlook)\n\nIMPORTANT: Respond with ONLY valid JSON in this exact format (no markdown, no explanations, no code blocks):\n{\n  \"trading_notes\": [\"note1\", \"note2\", \"note3\"],\n  \"risk_assessment\": \"brief risk summary\",\n  \"execution_recommendations\": [\"rec1\", \"rec2\"],\n  \"market_context\": \"market outlook\"\n}"@
}

/// The question about one asset; `None` where a number of the metrics
/// cannot be written.
pub fn asset_prompt(m: &AssetMetrics) -> (t: Option<String>)
    ensures
        t is Some <==> metrics_writable(*m),
        t matches Some(s) ==> s@ == asset_prompt_text(*m),
{
    let rs7 = crate::fixed::floor_div(m.rs_ma7, 100_000_000);
    let rs30 = crate::fixed::floor_div(m.rs_ma30, 100_000_000);
    let factor_ok = match m.profit_factor {
        ProfitFactor::Finite(v) => crate::export::is_writable(v),
        ProfitFactor::Infinite => true,
    };
    if !(crate::export::is_writable(m.total_return) && crate::export::is_writable(m.sharpe_ratio)
        && crate::export::is_writable(m.win_rate) && crate::export::is_writable(m.max_drawdown)
        && factor_ok && crate::export::is_writable(m.current_price) && crate::export::is_writable(
        m.ma30,
    ) && crate::export::is_writable(m.ma7) && crate::export::is_writable(rs7)
        && crate::export::is_writable(rs30) && crate::export::is_writable(m.atr_14)
        && crate::export::is_opt_writable(m.volatility)) {
        return None;
    }
    let mut t = "You are a quantitative trading analyst specializing in cryptocurrency momentum strategies. Analyze this trading strategy performance and provide actionable insights.\n\nASSET: ".to_owned();
    t.append(m.asset.as_str());
    t.append("\nPERFORMANCE METRICS:\n- Total Return: ");
    push_fine(&mut t, m.total_return, 2);
    t.append("%\n- Sharpe Ratio: ");
    push_decimal(&mut t, m.sharpe_ratio, 2);
    t.append("\n- Win Rate: ");
    push_decimal(&mut t, m.win_rate, 1);
    t.append("%\n- Max Drawdown: ");
    push_decimal(&mut t, m.max_drawdown, 2);
    t.append("%\n- Trading Days: ");
    push_natural(&mut t, m.trading_days as u128);
    t.append("\n- Profit Factor: ");
    match m.profit_factor {
        ProfitFactor::Finite(v) => {
            push_decimal(&mut t, v, 2);
        },
        ProfitFactor::Infinite => {
            t.append("inf");
        },
    }
    t.append("\n\nCURRENT MARKET DATA:\n- Current Price: $");
    push_decimal(&mut t, m.current_price, 2);
    t.append("\n- MA30: $");
    push_decimal(&mut t, m.ma30, 2);
    t.append("\n- MA7: $");
    push_decimal(&mut t, m.ma7, 2);
    t.append("\n- RS vs BTC (MA7): ");
    push_decimal(&mut t, rs7, 2);
    t.append("\n- RS vs BTC (MA30): ");
    push_decimal(&mut t, rs30, 2);
    t.append("\n- ATR(14): $");
    push_decimal(&mut t, m.atr_14, 2);
    t.append("\n- Volatility: ");
    match m.volatility {
        Some(v) => {
            push_decimal(&mut t, v, 2);
        },
        None => {
            t.append("NaN");
        },
    }
    t.append(
        "%\n\nPlease provide:\n1. 3-5 specific trading notes (execution tips, market conditions, risk factors)\n2. Risk assessment (1-2 sentences on risk level and key concerns)\n3. 2-3 execution recommendations (entry/exit strategies, position sizing)\n4. Market context (1-2 sentences on current market conditions and outlook)\n\nIMPORTANT: Respond with ONLY valid JSON in this exact format (no markdown, no explanations, no code blocks):\n{\n  \"trading_notes\": [\"note1\", \"note2\", \"note3\"],\n  \"risk_assessment\": \"brief risk summary\",\n  \"execution_recommendations\": [\"rec1\", \"rec2\"],\n  \"market_context\": \"market outlook\"\n}",
    );
    Some(t)
}

/// The entry of one performer: its name and its return in percent with
/// one decimal place.
pub open spec fn performer_text(p: (String, i128)) -> Seq<char> {
    p.0@ + ": "@ + decimal_text(p.1 as int, 1) + "%"@
}

/// The entries of the first `k` performers.
pub open spec fn performer_texts(top: Seq<(String, i128)>, k: int) -> Seq<Seq<char>>
    decreases k,
{
    if k <= 0 {
        Seq::empty()
    } else {
        performer_texts(top, k - 1).push(performer_text(top[k - 1]))
    }
}

/// Number of performers that are named in a question.
pub const TOP_PERFORMERS: usize = 5;

/// The first five performers, or all, in one line.
pub open spec fn performers_line(top: Seq<(String, i128)>) -> Seq<char> {
    joined(
        performer_texts(
            top,
            if top.len() <= TOP_PERFORMERS {
                top.len() as int
            } else {
                TOP_PERFORMERS as int
            },
        ),
        ", "@,
    )
}

/// The first five performers, or all, in one line; `None` where a return
/// among them cannot be written.
pub fn top_performers_line(top: &Vec<(String, i128)>) -> (t: Option<String>)
    ensures
        t is Some <==> forall|i: int|
            0 <= i < top.len() && i < TOP_PERFORMERS ==> writable((#[trigger] top[i]).1),
        t matches Some(s) ==> s@ == performers_line(top@),
{
    let take: usize = if top.len() <= TOP_PERFORMERS {
        top.len()
    } else {
        TOP_PERFORMERS
    };
    let mut parts: Vec<String> = Vec::new();
    let mut k: usize = 0;
    while k < take
        invariant
            take <= top.len(),
            take <= TOP_PERFORMERS,
            k <= take,
            texts(parts@) == performer_texts(top@, k as int),
            forall|i: int| 0 <= i < k ==> writable((#[trigger] top[i]).1),
        decreases take - k,
    {
        if !crate::export::is_writable(top[k].1) {
            return None;
        }
        let mut entry = top[k].0.clone();
        entry.append(": ");
        push_decimal(&mut entry, top[k].1, 1);
        entry.append("%");
        let ghost before = parts@;
        parts.push(entry);
        proof {
            lemma_texts_push(before, entry);
        }
        k = k + 1;
    }
    Some(join_strings(&parts, ", "))
}

/// The share of profitable strategies in percent with one decimal place,
/// or `NaN` where there is no strategy.
pub open spec fn share_text(total: usize, profitable: usize) -> Seq<char> {
    crate::insights::success_rate_text(total, profitable)
}

/// The question about the portfolio. Average return and win rate are in
/// percent.
pub open spec fn portfolio_prompt_text(
    total: usize,
    profitable: usize,
    avg_return: int,
    avg_sharpe: int,
    avg_win_rate: int,
    performers: Seq<char>,
    market_conditions: Seq<char>,
) -> Seq<char> {
    "You are a quantitative portfolio manager specializing in cryptocurrency momentum strategies. Analyze this portfolio performance and provide market insights.\n\nPORTFOLIO METRICS:\n- Total Strategies: "@
        + natural_text(total as nat) + "\n- Profitable Strategies: "@ + natural_text(
        profitable as nat,
    ) + " ("@ + share_text(total, profitable) + "%)\n- Average Return (Profitable): "@
        + decimal_text(avg_return, 1) + "%\n- Average Sharpe Ratio: "@ + decimal_text(
        avg_sharpe,
        2,
    ) + "\n- Average Win Rate: "@ + decimal_text(avg_win_rate, 1) + "%\n\nTOP PERFORMERS: "@
        + performers + "\n\nMARKET CONDITIONS: "@ + market_conditions
        + "\n\nProvide a 2-3 paragraph analysis covering:\n1. Overall strategy effectiveness and market conditions\n2. Key themes in the top performers\n3. Risk management recommendations\n4. Market outlook and positioning advice\n\nBe specific and actionable for a quantitative trader."@
}

/// The question about the portfolio.
pub fn portfolio_prompt(
    total_strategies: usize,
    profitable_strategies: usize,
    avg_return: i128,
    avg_sharpe: i128,
    avg_win_rate: i128,
    performers: &str,
    market_conditions: &str,
) -> (t: String)
    requires
        writable(avg_return),
        writable(avg_sharpe),
        writable(avg_win_rate),
    ensures
        t@ == portfolio_prompt_text(
            total_strategies,
            profitable_strategies,
            avg_return as int,
            avg_sharpe as int,
            avg_win_rate as int,
            performers@,
            market_conditions@,
        ),
{
    let mut t = "You are a quantitative portfolio manager specializing in cryptocurrency momentum strategies. Analyze this portfolio performance and provide market insights.\n\nPORTFOLIO METRICS:\n- Total Strategies: ".to_owned();
    push_natural(&mut t, total_strategies as u128);
    t.append("\n- Profitable Strategies: ");
    push_natural(&mut t, profitable_strategies as u128);
    t.append(" (");
    crate::insights::push_success_rate(&mut t, total_strategies, profitable_strategies);
    t.append("%)\n- Average Return (Profitable): ");
    push_decimal(&mut t, avg_return, 1);
    t.append("%\n- Average Sharpe Ratio: ");
    push_decimal(&mut t, avg_sharpe, 2);
    t.append("\n- Average Win Rate: ");
    push_decimal(&mut t, avg_win_rate, 1);
    t.append("%\n\nTOP PERFORMERS: ");
    t.append(performers);
    t.append("\n\nMARKET CONDITIONS: ");
    t.append(market_conditions);
    t.append(
        "\n\nProvide a 2-3 paragraph analysis covering:\n1. Overall strategy effectiveness and market conditions\n2. Key themes in the top performers\n3. Risk management recommendations\n4. Market outlook and positioning advice\n\nBe specific and actionable for a quantitative trader.",
    );
    t
}

/// The line on the index of fear and greed in a question.
pub open spec fn index_line(fear_greed_index: Option<i32>) -> Seq<char> {
    match fear_greed_index {
        Some(i) => "Fear & Greed Index: "@ + integer_text(i as int),
        None => "Fear & Greed Index: Not available"@,
    }
}

/// The question about the context of the market. Prices are in ticks, the
/// change is in percent.
pub open spec fn market_prompt_text(
    btc_price: int,
    eth_price: int,
    market_cap_change: int,
    fear_greed_index: Option<i32>,
) -> Seq<char> {
    "You are a crypto market analyst. Provide a brief market context based on current data.\n\nCURRENT MARKET DATA:\n- BTC Price: $"@
        + decimal_text(btc_price, 2) + "\n- ETH Price: $"@ + decimal_text(eth_price, 2)
        + "\n- Market Cap Change (24h): "@ + decimal_text(market_cap_change, 2) + "%\n- "@
        + index_line(fear_greed_index)
        + "\n\nProvide a 1-2 sentence market context focusing on:\n- Overall market sentiment\n- Key support/resistance levels\n- Risk factors for momentum strategies\n- Market structure insights\n\nBe concise and actionable for traders."@
}

/// The question about the context of the market.
pub fn market_prompt(
    btc_price: i128,
    eth_price: i128,
    market_cap_change: i128,
    fear_greed_index: Option<i32>,
) -> (t: String)
    requires
        writable(btc_price),
        writable(eth_price),
        writable(market_cap_change),
    ensures
        t@ == market_prompt_text(
            btc_price as int,
            eth_price as int,
            market_cap_change as int,
            fear_greed_index,
        ),
{
    let mut t = "You are a crypto market analyst. Provide a brief market context based on current data.\n\nCURRENT MARKET DATA:\n- BTC Price: $".to_owned();
    push_decimal(&mut t, btc_price, 2);
    t.append("\n- ETH Price: $");
    push_decimal(&mut t, eth_price, 2);
    t.append("\n- Market Cap Change (24h): ");
    push_decimal(&mut t, market_cap_change, 2);
    t.append("%\n- ");
    match fear_greed_index {
        Some(i) => {
            t.append("Fear & Greed Index: ");
            push_integer(&mut t, i as i64);
        },
        None => {
            t.append("Fear & Greed Index: Not available");
        },
    }
    t.append(
        "\n\nProvide a 1-2 sentence market context focusing on:\n- Overall market sentiment\n- Key support/resistance levels\n- Risk factors for momentum strategies\n- Market structure insights\n\nBe concise and actionable for traders.",
    );
    proof {
        assert(t@ =~= market_prompt_text(
            btc_price as int,
            eth_price as int,
            market_cap_change as int,
            fear_greed_index,
        ));
    }
    t
}

} // verus!
