use stolcker::request::{quote_url, series_key, INTERVAL, MAX_REQUEST_PER_DAY};

#[test]
fn url_carries_function_symbol_interval_and_key() {
    assert_eq!(
        quote_url("GOOGL", "demo"),
        "https://www.alphavantage.co/query?function=TIME_SERIES_INTRADAY&symbol=GOOGL&interval=15min&apikey=demo"
    );
}

#[test]
fn url_takes_its_arguments_as_they_are() {
    assert_eq!(
        quote_url("", ""),
        "https://www.alphavantage.co/query?function=TIME_SERIES_INTRADAY&symbol=&interval=15min&apikey="
    );
    assert_eq!(
        quote_url("A B&c", "k=1"),
        "https://www.alphavantage.co/query?function=TIME_SERIES_INTRADAY&symbol=A B&c&interval=15min&apikey=k=1"
    );
}

#[test]
fn series_key_names_the_interval() {
    assert_eq!(series_key(), "Time Series (15min)");
    assert_eq!(series_key(), format!("Time Series ({})", INTERVAL));
}

#[test]
fn constants_are_what_the_provider_states() {
    assert_eq!(INTERVAL, "15min");
    assert_eq!(MAX_REQUEST_PER_DAY, 500);
}
