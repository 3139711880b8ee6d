use price_fetcher::clock::{now_unix, seconds_or_zero};
use price_fetcher::record::record_text;
use price_fetcher::source::{PriceSource, Response};
use price_fetcher::text::decimal;

#[test]
fn decimal_digits() {
    assert_eq!(decimal(0), "0");
    assert_eq!(decimal(7), "7");
    assert_eq!(decimal(10), "10");
    assert_eq!(decimal(1718000000), "1718000000");
    assert_eq!(decimal(u64::MAX), "18446744073709551615");
}

#[test]
fn first_record_has_header() {
    assert_eq!(record_text(true, 5, "BTC", "1.5"), "timestamp_unix,asset,price_usd\n5,BTC,1.5\n");
}

#[test]
fn later_record_has_no_header() {
    assert_eq!(record_text(false, 1718000000, "ETH", "3456.5"), "1718000000,ETH,3456.5\n");
}

#[test]
fn file_keeps_one_header() {
    let mut file = String::new();
    for ts in [100u64, 110, 120, 130] {
        let was_empty = file.is_empty();
        file.push_str(&record_text(was_empty, ts, "SP500", "5000"));
    }
    assert_eq!(
        file,
        "timestamp_unix,asset,price_usd\n100,SP500,5000\n110,SP500,5000\n120,SP500,5000\n130,SP500,5000\n"
    );
    assert_eq!(file.matches("timestamp_unix").count(), 1);
}

#[test]
fn fetched_bitcoin_price_is_recorded() {
    let price = PriceSource::Bitcoin
        .price_from_response(&Response::Body(r#"{"bitcoin":{"usd":67890.12}}"#.to_string()))
        .unwrap();
    assert_eq!(price.as_f64(), Some(67890.12));
    let ts = now_unix();
    let line = PriceSource::Bitcoin.record(false, ts, &price);
    assert_eq!(line, format!("{},BTC,67890.12\n", ts));
}

#[test]
fn integer_price_record() {
    let price = serde_json::Number::from(3500u64);
    assert_eq!(PriceSource::Ethereum.record(true, 9, &price), "timestamp_unix,asset,price_usd\n9,ETH,3500\n");
}

#[test]
fn clock_is_after_epoch() {
    let a = now_unix();
    let b = now_unix();
    assert!(a > 1_600_000_000);
    assert!(b >= a);
}

#[test]
fn clock_before_epoch_is_zero() {
    assert_eq!(seconds_or_zero(None), 0);
    assert_eq!(seconds_or_zero(Some(1718000000)), 1718000000);
}

#[test]
fn float_price_record_text() {
    let price = serde_json::Number::from_f64(67890.12).unwrap();
    assert_eq!(PriceSource::Bitcoin.record(false, 3, &price), "3,BTC,67890.12\n");
}
