//! The request for a symbol's intraday quotes.

use vstd::prelude::*;
use vstd::string::StringExecFns;

verus! {

/// How many requests a day the provider grants a key.
pub const MAX_REQUEST_PER_DAY: i32 = 500;

/// The sampling interval that every request asks for.
pub const INTERVAL: &'static str = "15min";

/// The address of the intraday quotes of `stock_name`, asked for with
/// `api_key`: the provider's query address with the function, the symbol,
/// the interval and the key as its parameters, in this order.
pub open spec fn quote_url_of(stock_name: Seq<char>, api_key: Seq<char>) -> Seq<char> {
    "https://www.alphavantage.co/query?function=TIME_SERIES_INTRADAY&symbol="@ + stock_name
        + "&interval="@ + INTERVAL@ + "&apikey="@ + api_key
}

/// Builds the address of the intraday quotes of `stock_name`. Neither
/// argument is escaped: both stand in the address as they are given.
pub fn quote_url(stock_name: &str, api_key: &str) -> (url: String)
    ensures
        url@ == quote_url_of(stock_name@, api_key@),
{
    let mut url = String::from_str(
        "https://www.alphavantage.co/query?function=TIME_SERIES_INTRADAY&symbol=",
    );
    url.append(stock_name);
    url.append("&interval=");
    url.append(INTERVAL);
    url.append("&apikey=");
    url.append(api_key);
    url
}

/// The key of the response's member that holds the series sampled at
/// `INTERVAL`.
pub open spec fn series_key_of() -> Seq<char> {
    "Time Series ("@ + INTERVAL@ + ")"@
}

/// The series key, written out.
pub proof fn lemma_series_key()
    ensures
        series_key_of() == "Time Series (15min)"@,
{
    reveal_strlit("Time Series (");
    reveal_strlit("15min");
    reveal_strlit(")");
    reveal_strlit("Time Series (15min)");
    assert(series_key_of() =~= "Time Series (15min)"@);
}

/// Builds the key of the response's member that holds the series.
pub fn series_key() -> (key: String)
    ensures
        key@ == series_key_of(),
{
    let mut key = String::from_str("Time Series (");
    key.append(INTERVAL);
    key.append(")");
    key
}

} // verus!
