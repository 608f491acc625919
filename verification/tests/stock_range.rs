use stolcker::error::AppError;
use stolcker::stock::{Price, Record, Stock};

fn price(open: f32, high: f32, low: f32, close: f32, volume: f32) -> Price {
    Price {
        open: open.to_bits(),
        high: high.to_bits(),
        low: low.to_bits(),
        close: close.to_bits(),
        volume: volume.to_bits(),
    }
}

fn record(time: &str, p: Price) -> Record {
    Record { time: time.to_string(), price: p }
}

fn stock_of(records: Vec<Record>) -> Stock {
    Stock::from_records(
        "2023-03-24 20:00:00".to_string(),
        "15min".to_string(),
        "US/Eastern".to_string(),
        records,
    )
}

#[test]
fn range_is_the_maximum_high_and_the_minimum_low() {
    let s = stock_of(vec![
        record("c", price(10.0, 12.5, 9.0, 11.0, 100.0)),
        record("b", price(11.0, 15.25, 10.5, 12.0, 200.0)),
        record("a", price(12.0, 13.0, 8.75, 9.0, 300.0)),
    ]);
    assert_eq!(f32::from_bits(s.highest()), 15.25);
    assert_eq!(f32::from_bits(s.lowest()), 8.75);
    assert_eq!(s.len(), 3);
}

#[test]
fn range_of_one_record_is_its_high_and_low() {
    let s = stock_of(vec![record("a", price(100.0, 110.0, 90.0, 105.0, 1000.0))]);
    assert_eq!(f32::from_bits(s.highest()), 110.0);
    assert_eq!(f32::from_bits(s.lowest()), 90.0);
}

#[test]
fn range_of_no_record_is_zero() {
    let s = stock_of(Vec::new());
    assert_eq!(s.highest(), 0);
    assert_eq!(s.lowest(), 0);
    assert_eq!(f32::from_bits(s.highest()), 0.0);
    assert_eq!(s.len(), 0);
    assert!(s.records().is_empty());
}

#[test]
fn range_handles_negative_prices() {
    let s = stock_of(vec![
        record("b", price(-1.0, -0.5, -3.0, -2.0, 1.0)),
        record("a", price(-2.0, -0.25, -7.5, -1.0, 1.0)),
    ]);
    assert_eq!(f32::from_bits(s.highest()), -0.25);
    assert_eq!(f32::from_bits(s.lowest()), -7.5);
}

#[test]
fn first_of_equal_extremes_is_kept() {
    let s = stock_of(vec![
        record("b", price(0.0, 0.0, -0.0, 0.0, 1.0)),
        record("a", price(0.0, -0.0, 0.0, 0.0, 1.0)),
    ]);
    assert_eq!(s.highest(), 0.0f32.to_bits());
    assert_eq!(s.lowest(), (-0.0f32).to_bits());
}

#[test]
fn a_leading_nan_stays_in_the_range() {
    let s = stock_of(vec![
        record("b", price(1.0, f32::NAN, f32::NAN, 1.0, 1.0)),
        record("a", price(1.0, 5.0, 0.5, 1.0, 1.0)),
    ]);
    assert!(f32::from_bits(s.highest()).is_nan());
    assert!(f32::from_bits(s.lowest()).is_nan());
}

#[test]
fn a_later_nan_is_passed_over() {
    let s = stock_of(vec![
        record("b", price(1.0, 5.0, 0.5, 1.0, 1.0)),
        record("a", price(1.0, f32::NAN, f32::NAN, 1.0, 1.0)),
    ]);
    assert_eq!(f32::from_bits(s.highest()), 5.0);
    assert_eq!(f32::from_bits(s.lowest()), 0.5);
}

#[test]
fn stock_keeps_records_and_metadata() {
    let records = vec![
        record("2023-03-24 20:00:00", price(1.0, 2.0, 0.5, 1.5, 10.0)),
        record("2023-03-24 19:45:00", price(1.5, 2.5, 1.0, 2.0, 20.0)),
    ];
    let s = stock_of(records.clone());
    assert_eq!(s.records(), &records);
    assert_eq!(s.time(), "2023-03-24 20:00:00");
    assert_eq!(s.interval(), "15min");
    assert_eq!(s.time_zone(), "US/Eastern");
}

#[test]
fn clone_of_a_stock_is_the_same_stock() {
    let s = stock_of(vec![
        record("b", price(1.0, 2.0, 0.5, 1.5, 10.0)),
        record("a", price(1.5, 2.5, 1.0, 2.0, 20.0)),
    ]);
    let c = s.clone();
    assert_eq!(c.records(), s.records());
    assert_eq!(c.highest(), s.highest());
    assert_eq!(c.lowest(), s.lowest());
    assert_eq!(c.time(), s.time());
    assert_eq!(c.interval(), s.interval());
    assert_eq!(c.time_zone(), s.time_zone());
}

#[test]
fn price_from_readings_needs_all_five() {
    let p = Price::from_readings(Some(1), Some(2), Some(3), Some(4), Some(5));
    assert_eq!(p, Ok(Price { open: 1, high: 2, low: 3, close: 4, volume: 5 }));
    assert_eq!(Price::from_readings(None, Some(2), Some(3), Some(4), Some(5)), Err(AppError::ParseError));
    assert_eq!(Price::from_readings(Some(1), None, Some(3), Some(4), Some(5)), Err(AppError::ParseError));
    assert_eq!(Price::from_readings(Some(1), Some(2), None, Some(4), Some(5)), Err(AppError::ParseError));
    assert_eq!(Price::from_readings(Some(1), Some(2), Some(3), None, Some(5)), Err(AppError::ParseError));
    assert_eq!(Price::from_readings(Some(1), Some(2), Some(3), Some(4), None), Err(AppError::ParseError));
}

#[test]
fn candle_rises_where_close_is_at_least_open() {
    assert!(price(100.0, 110.0, 90.0, 105.0, 1.0).is_rising());
    assert!(price(100.0, 110.0, 90.0, 100.0, 1.0).is_rising());
    assert!(!price(100.0, 110.0, 90.0, 99.5, 1.0).is_rising());
    assert!(!price(100.0, 110.0, 90.0, f32::NAN, 1.0).is_rising());
    assert!(price(0.0, 1.0, -1.0, -0.0, 1.0).is_rising());
}
