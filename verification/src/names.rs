//! The names of the tables that the pipeline reads and writes.

use vstd::prelude::*;
use vstd::string::{StrSliceExecFns, StringExecFns};

verus! {

/// `s` begins with `prefix`.
pub open spec fn has_prefix(s: Seq<char>, prefix: Seq<char>) -> bool {
    prefix.len() <= s.len() && s.subrange(0, prefix.len() as int) == prefix
}

/// `s` ends with `suffix`.
pub open spec fn has_suffix(s: Seq<char>, suffix: Seq<char>) -> bool {
    suffix.len() <= s.len() && s.subrange(s.len() - suffix.len(), s.len() as int) == suffix
}

/// Whether `n` characters of `a` from `from` on are the first `n`
/// characters of `b`.
pub fn same_run(a: &str, from: usize, b: &str, n: usize) -> (same: bool)
    requires
        from + n <= a@.len(),
        from + n <= usize::MAX,
        n <= b@.len(),
    ensures
        same == (a@.subrange(from as int, from + n) == b@.subrange(0, n as int)),
{
    let mut i: usize = 0;
    while i < n
        invariant
            from + n <= a@.len(),
            from + n <= usize::MAX,
            n <= b@.len(),
            i <= n,
            a@.subrange(from as int, from + i) == b@.subrange(0, i as int),
        decreases n - i,
    {
        if a.get_char(from + i) != b.get_char(i) {
            proof {
                let x = a@.subrange(from as int, from + n);
                let y = b@.subrange(0, n as int);
                assert(x[i as int] != y[i as int]);
            }
            return false;
        }
        proof {
            assert(a@.subrange(from as int, from + i + 1) =~= a@.subrange(
                from as int,
                from + i,
            ).push(a@[from + i]));
            assert(b@.subrange(0, i + 1) =~= b@.subrange(0, i as int).push(b@[i as int]));
        }
        i = i + 1;
    }
    true
}

/// Whether `s` begins with `prefix`.
pub fn starts_with(s: &str, prefix: &str) -> (b: bool)
    ensures
        b == has_prefix(s@, prefix@),
{
    let n = s.unicode_len();
    let p = prefix.unicode_len();
    if p > n {
        return false;
    }
    proof {
        assert(prefix@.subrange(0, p as int) =~= prefix@);
    }
    same_run(s, 0, prefix, p)
}

/// Whether `s` ends with `suffix`.
pub fn ends_with(s: &str, suffix: &str) -> (b: bool)
    ensures
        b == has_suffix(s@, suffix@),
{
    let n = s.unicode_len();
    let p = suffix.unicode_len();
    if p > n {
        return false;
    }
    proof {
        assert(suffix@.subrange(0, p as int) =~= suffix@);
    }
    same_run(s, n - p, suffix, p)
}

/// The name has the extension `csv`: it ends with `.csv` after at least
/// one other character.
pub open spec fn is_csv(name: Seq<char>) -> bool {
    has_suffix(name, ".csv"@) && name.len() > ".csv"@.len()
}

/// Whether the name has the extension `csv`.
pub fn has_csv_extension(name: &str) -> (b: bool)
    ensures
        b == is_csv(name@),
{
    ends_with(name, ".csv") && name.unicode_len() > ".csv".unicode_len()
}

/// The name is that of a table of prices: a `csv` file that is neither a
/// table of signals nor the equity curve.
pub open spec fn is_price_table_name(name: Seq<char>) -> bool {
    is_csv(name) && !has_prefix(name, "signals_"@) && name != "equity_curve.csv"@
}

/// Whether the name is that of a table of prices.
pub fn is_price_table(name: &str) -> (b: bool)
    ensures
        b == is_price_table_name(name@),
{
    if !has_csv_extension(name) || starts_with(name, "signals_") {
        return false;
    }
    let n = name.unicode_len();
    let m = "equity_curve.csv".unicode_len();
    if n != m {
        return true;
    }
    proof {
        assert(name@.subrange(0, n as int) =~= name@);
        assert("equity_curve.csv"@.subrange(0, m as int) =~= "equity_curve.csv"@);
    }
    !same_run(name, 0, "equity_curve.csv", n)
}

/// The name is that of a table of an asset for the daemon: it ends with
/// `.csv` and does not begin with `BTC_`.
pub fn is_daemon_asset(name: &str) -> (b: bool)
    ensures
        b == (has_suffix(name@, ".csv"@) && !has_prefix(name@, "BTC_"@)),
{
    ends_with(name, ".csv") && !starts_with(name, "BTC_")
}

/// The asset of a table of signals: the name without `signals_` in front
/// and `.csv` behind; `None` for another name.
pub open spec fn signals_asset(name: Seq<char>) -> Option<Seq<char>> {
    if is_csv(name) && has_prefix(name, "signals_"@) && name.len() >= "signals_"@.len()
        + ".csv"@.len() {
        Some(name.subrange("signals_"@.len() as int, name.len() - ".csv"@.len()))
    } else {
        None
    }
}

/// The asset of a table of signals.
pub fn asset_of_signals_file(name: &str) -> (asset: Option<String>)
    ensures
        match asset {
            Some(a) => signals_asset(name@) == Some(a@),
            None => signals_asset(name@) is None,
        },
{
    if !has_csv_extension(name) || !starts_with(name, "signals_") {
        return None;
    }
    let n = name.unicode_len();
    let p = "signals_".unicode_len();
    let q = ".csv".unicode_len();
    if p > usize::MAX - q || n < p + q {
        return None;
    }
    Some(name.substring_char(p, n - q).to_owned())
}

/// The name of the table of signals of an asset.
pub fn signals_file_name(asset: &str) -> (name: String)
    ensures
        name@ == "signals_"@ + asset@ + ".csv"@,
{
    let mut name = "signals_".to_owned();
    name.append(asset);
    name.append(".csv");
    name
}

/// The name of the table of prices of a coin from its symbol in capitals
/// and its id.
pub fn coin_file_name(symbol: &str, id: &str) -> (name: String)
    ensures
        name@ == symbol@ + "_"@ + id@ + ".csv"@,
{
    let mut name = symbol.to_owned();
    name.append("_");
    name.append(id);
    name.append(".csv");
    name
}

} // verus!
