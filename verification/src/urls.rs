//! The addresses that market data is asked from.

use vstd::prelude::*;
use vstd::string::StringExecFns;
use crate::text::{integer_string, integer_text, natural_text, push_natural, texts};

verus! {

/// The address that `reqwest::Url::parse_with_params` makes of a base
/// address and query parameters, as text; `None` where the base is not an
/// absolute address.
pub uninterp spec fn url_with_params(base: Seq<char>, params: Seq<(Seq<char>, Seq<char>)>) -> Option<
    Seq<char>,
>;

/// The names and values of query parameters as texts.
pub open spec fn pairs(params: Seq<(String, String)>) -> Seq<(Seq<char>, Seq<char>)> {
    Seq::new(params.len(), |i: int| (params[i].0@, params[i].1@))
}

/// Calls `reqwest::Url::parse_with_params`. The contract names the
/// result; it claims nothing of which bases are addresses.
#[verifier::external_body]
pub(crate) fn parse_url_with_params(base: &str, params: &Vec<(String, String)>) -> (url: Option<
    String,
>)
    ensures
        match url {
            Some(u) => url_with_params(base@, pairs(params@)) == Some(u@),
            None => url_with_params(base@, pairs(params@)) is None,
        },
{
    match reqwest::Url::parse_with_params(base, params.iter()) {
        Ok(url) => Some(url.to_string()),
        Err(_) => None,
    }
}

/// The base address of the daily candles of a coin.
pub open spec fn ohlc_base(coin_id: Seq<char>) -> Seq<char> {
    "https://pro-api.coingecko.com/api/v3/coins/"@ + coin_id + "/ohlc/range"@
}

/// The query parameters of a request for the daily candles between two
/// timestamps.
pub open spec fn ohlc_params(vs: Seq<char>, from_ts: int, to_ts: int) -> Seq<(Seq<char>, Seq<char>)> {
    seq![
        ("vs_currency"@, vs),
        ("from"@, integer_text(from_ts)),
        ("to"@, integer_text(to_ts)),
        ("interval"@, "daily"@),
    ]
}

/// The address of the daily candles of a coin between two timestamps.
pub fn ohlc_range_url(coin_id: &str, vs: &str, from_ts: i64, to_ts: i64) -> (url: Option<String>)
    ensures
        match url {
            Some(u) => url_with_params(
                ohlc_base(coin_id@),
                ohlc_params(vs@, from_ts as int, to_ts as int),
            ) == Some(u@),
            None => url_with_params(
                ohlc_base(coin_id@),
                ohlc_params(vs@, from_ts as int, to_ts as int),
            ) is None,
        },
{
    let mut base = "https://pro-api.coingecko.com/api/v3/coins/".to_owned();
    base.append(coin_id);
    base.append("/ohlc/range");
    let mut params: Vec<(String, String)> = Vec::new();
    params.push(("vs_currency".to_owned(), vs.to_owned()));
    params.push(("from".to_owned(), integer_string(from_ts)));
    params.push(("to".to_owned(), integer_string(to_ts)));
    params.push(("interval".to_owned(), "daily".to_owned()));
    proof {
        assert(pairs(params@) =~= ohlc_params(vs@, from_ts as int, to_ts as int));
    }
    parse_url_with_params(base.as_str(), &params)
}

/// The query parameters of a request for one page of the coins by market
/// capitalisation.
pub open spec fn markets_params(vs: Seq<char>, per_page: nat, page: nat) -> Seq<
    (Seq<char>, Seq<char>),
> {
    seq![
        ("vs_currency"@, vs),
        ("order"@, "market_cap_desc"@),
        ("per_page"@, natural_text(per_page)),
        ("page"@, natural_text(page)),
        ("price_change_percentage"@, "24h"@),
        ("sparkline"@, "false"@),
    ]
}

/// The address of one page of the coins by market capitalisation.
pub fn markets_url(vs: &str, per_page: usize, page: usize) -> (url: Option<String>)
    ensures
        match url {
            Some(u) => url_with_params(
                "https://pro-api.coingecko.com/api/v3/coins/markets"@,
                markets_params(vs@, per_page as nat, page as nat),
            ) == Some(u@),
            None => url_with_params(
                "https://pro-api.coingecko.com/api/v3/coins/markets"@,
                markets_params(vs@, per_page as nat, page as nat),
            ) is None,
        },
{
    let mut per = String::new();
    push_natural(&mut per, per_page as u128);
    let mut number = String::new();
    push_natural(&mut number, page as u128);
    let mut params: Vec<(String, String)> = Vec::new();
    params.push(("vs_currency".to_owned(), vs.to_owned()));
    params.push(("order".to_owned(), "market_cap_desc".to_owned()));
    params.push(("per_page".to_owned(), per));
    params.push(("page".to_owned(), number));
    params.push(("price_change_percentage".to_owned(), "24h".to_owned()));
    params.push(("sparkline".to_owned(), "false".to_owned()));
    proof {
        assert(Seq::<char>::empty() + natural_text(per_page as nat) =~= natural_text(per_page as nat));
        assert(Seq::<char>::empty() + natural_text(page as nat) =~= natural_text(page as nat));
        assert(pairs(params@) =~= markets_params(vs@, per_page as nat, page as nat));
    }
    parse_url_with_params("https://pro-api.coingecko.com/api/v3/coins/markets", &params)
}

} // verus!
