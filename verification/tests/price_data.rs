use chrono::{DateTime, TimeZone, Utc};
use chrono_tz::Europe::Oslo;
use tibber_cli::api::PriceData;
use tibber_cli::price_table::PriceTable;
use tibber_cli::time::{hour_in_zone, local_hour, timestamp_of_reading, Timestamp};

fn ts<Z: TimeZone>(dt: DateTime<Z>) -> Timestamp {
    Timestamp { secs: dt.timestamp(), nanos: dt.timestamp_subsec_nanos() }
}

fn empty_data(stale_after: Timestamp, includes_next_day: bool) -> PriceData {
    PriceData { prices: PriceTable::new(), currency: None, stale_after, includes_next_day }
}

fn price(bits: Option<u64>) -> Option<f64> {
    bits.map(f64::from_bits)
}

#[test]
fn test_has_tomorrow_prices() {
    let stale_after = ts(Utc.with_ymd_and_hms(2023, 1, 1, 23, 0, 0).unwrap().fixed_offset());

    let mut data = empty_data(stale_after, true);

    // Before stale_after -> valid
    let now = ts(Utc.with_ymd_and_hms(2023, 1, 1, 12, 0, 0).unwrap());
    assert!(data.has_tomorrow_prices_at(now));

    // After stale_after -> invalid
    let now = ts(Utc.with_ymd_and_hms(2023, 1, 2, 0, 0, 1).unwrap());
    assert!(!data.has_tomorrow_prices_at(now));

    // includes_next_day = false -> invalid
    data.includes_next_day = false;
    let now = ts(Utc.with_ymd_and_hms(2023, 1, 1, 12, 0, 0).unwrap());
    assert!(!data.has_tomorrow_prices_at(now));
}

#[test]
fn test_should_fetch_new_price_data() {
    let stale_after = ts(Utc.with_ymd_and_hms(2023, 1, 1, 23, 0, 0).unwrap().fixed_offset());

    let mut data = empty_data(stale_after, false);

    // 13:00 Oslo time -> shouldn't fetch
    let now = ts(Oslo.with_ymd_and_hms(2023, 1, 1, 13, 0, 0).unwrap());
    assert!(!data.should_fetch_new_price_data_at("Europe/Oslo", now));

    // 14:00 Oslo time -> should fetch
    let now = ts(Oslo.with_ymd_and_hms(2023, 1, 1, 14, 0, 0).unwrap());
    assert!(data.should_fetch_new_price_data_at("Europe/Oslo", now));

    // If we already have next day -> shouldn't fetch
    data.includes_next_day = true;
    assert!(!data.should_fetch_new_price_data_at("Europe/Oslo", now));
}

#[test]
fn test_current_price() {
    let mut prices = PriceTable::new();
    let t1 = ts(Utc.with_ymd_and_hms(2023, 1, 1, 10, 0, 0).unwrap().fixed_offset());
    let t2 = ts(Utc.with_ymd_and_hms(2023, 1, 1, 11, 0, 0).unwrap().fixed_offset());

    prices.insert(t1, 1.5f64.to_bits());
    prices.insert(t2, 2.5f64.to_bits());

    let data = PriceData { prices, currency: None, stale_after: t2, includes_next_day: false };

    // Before first -> None
    let now = ts(Utc.with_ymd_and_hms(2023, 1, 1, 9, 0, 0).unwrap().fixed_offset());
    assert_eq!(price(data.current_price_at(now)), None);

    // At first -> 1.5
    let now = ts(Utc.with_ymd_and_hms(2023, 1, 1, 10, 0, 0).unwrap().fixed_offset());
    assert_eq!(price(data.current_price_at(now)), Some(1.5));

    // Between first and second -> 1.5
    let now = ts(Utc.with_ymd_and_hms(2023, 1, 1, 10, 30, 0).unwrap().fixed_offset());
    assert_eq!(price(data.current_price_at(now)), Some(1.5));

    // At second -> 2.5
    let now = ts(Utc.with_ymd_and_hms(2023, 1, 1, 11, 0, 0).unwrap().fixed_offset());
    assert_eq!(price(data.current_price_at(now)), Some(2.5));

    // After second -> 2.5 (until next fetch)
    let now = ts(Utc.with_ymd_and_hms(2023, 1, 1, 12, 0, 0).unwrap().fixed_offset());
    assert_eq!(price(data.current_price_at(now)), Some(2.5));
}

#[test]
fn timestamps_compare_as_instants_whatever_the_offset() {
    let utc = ts(Utc.with_ymd_and_hms(2023, 1, 1, 12, 0, 0).unwrap());
    let oslo = ts(Oslo.with_ymd_and_hms(2023, 1, 1, 13, 0, 0).unwrap());
    assert_eq!(utc, oslo);
    assert!(utc.is_at_or_before(&oslo));
    assert!(!utc.is_before(&oslo));
    let later = Timestamp { secs: utc.secs, nanos: 1 };
    assert!(utc.is_before(&later));
    assert!(!later.is_at_or_before(&utc));
}

#[test]
fn table_insert_replaces_price_at_same_instant() {
    let mut prices = PriceTable::new();
    let t = ts(Utc.with_ymd_and_hms(2023, 1, 1, 10, 0, 0).unwrap());
    prices.insert(t, 1.0f64.to_bits());
    prices.insert(t, 3.0f64.to_bits());
    assert_eq!(prices.points().len(), 1);
    assert_eq!(price(prices.price_at(t)), Some(3.0));
}

#[test]
fn table_keeps_points_in_order_of_start() {
    let mut prices = PriceTable::new();
    let t = |h| ts(Utc.with_ymd_and_hms(2023, 1, 1, h, 0, 0).unwrap());
    prices.insert(t(12), 3.0f64.to_bits());
    prices.insert(t(10), 1.0f64.to_bits());
    prices.insert(t(11), 2.0f64.to_bits());
    let starts: Vec<i64> = prices.points().iter().map(|p| p.starts_at.secs).collect();
    assert_eq!(starts, vec![t(10).secs, t(11).secs, t(12).secs]);
    assert_eq!(price(prices.price_at(t(11))), Some(2.0));
}

#[test]
fn price_in_effect_right_after_insert() {
    let mut prices = PriceTable::new();
    let t = |h, m| ts(Utc.with_ymd_and_hms(2023, 1, 1, h, m, 0).unwrap());
    prices.insert(t(10, 0), 1.0f64.to_bits());
    prices.insert(t(12, 0), 2.0f64.to_bits());
    prices.insert(t(11, 15), 4.0f64.to_bits());
    assert_eq!(price(prices.price_at(t(11, 15))), Some(4.0));
    // steady until the next point starts
    assert_eq!(price(prices.price_at(t(11, 59))), Some(4.0));
    assert_eq!(price(prices.price_at(t(11, 14))), Some(1.0));
}

#[test]
fn no_price_in_an_empty_table() {
    let prices = PriceTable::new();
    assert_eq!(prices.price_at(Timestamp { secs: 0, nanos: 0 }), None);
    assert!(prices.points().is_empty());
}

#[test]
fn stale_data_stays_stale() {
    let stale_after = ts(Utc.with_ymd_and_hms(2023, 1, 1, 23, 0, 0).unwrap());
    let data = empty_data(stale_after, true);
    assert!(data.has_tomorrow_prices_at(stale_after));
    let t1 = Timestamp { secs: stale_after.secs, nanos: 1 };
    let t2 = ts(Utc.with_ymd_and_hms(2023, 1, 5, 0, 0, 0).unwrap());
    assert!(!data.has_tomorrow_prices_at(t1));
    assert!(!data.has_tomorrow_prices_at(t2));
}

#[test]
fn fetch_due_depends_on_the_home_time_zone() {
    let stale_after = ts(Utc.with_ymd_and_hms(2023, 1, 1, 0, 0, 0).unwrap());
    let data = empty_data(stale_after, false);
    // 13:30 UTC is 14:30 in Oslo and 13:30 in London.
    let now = ts(Utc.with_ymd_and_hms(2023, 1, 1, 13, 30, 0).unwrap());
    assert!(data.should_fetch_new_price_data_at("Europe/Oslo", now));
    assert!(!data.should_fetch_new_price_data_at("Europe/London", now));
    // An unknown zone gives no hour, so no fetch is due.
    assert!(!data.should_fetch_new_price_data_at("Nowhere/Atlantis", now));
}

#[test]
fn fetch_due_at_local_hour() {
    let stale_after = ts(Utc.with_ymd_and_hms(2023, 1, 1, 0, 0, 0).unwrap());
    let data = empty_data(stale_after, false);
    let now = ts(Utc.with_ymd_and_hms(2023, 1, 1, 13, 30, 0).unwrap());
    assert!(!data.should_fetch_at_local_hour(now, Some(13)));
    assert!(data.should_fetch_at_local_hour(now, Some(14)));
    assert!(data.should_fetch_at_local_hour(now, Some(23)));
    assert!(!data.should_fetch_at_local_hour(now, None));
}

#[test]
fn hour_in_named_zones() {
    let now = ts(Utc.with_ymd_and_hms(2023, 7, 1, 22, 15, 0).unwrap());
    assert_eq!(hour_in_zone("UTC", now), Some(22));
    // Oslo is on summer time in July: UTC+2.
    assert_eq!(hour_in_zone("Europe/Oslo", now), Some(0));
    assert_eq!(hour_in_zone("America/New_York", now), Some(18));
    assert_eq!(hour_in_zone("Not/A_Zone", now), None);
}

#[test]
fn local_hour_wraps_around_the_day() {
    assert_eq!(local_hour(0, 0), 0);
    assert_eq!(local_hour(3600 * 23 + 59, 0), 23);
    assert_eq!(local_hour(3600, -7200), 23);
    assert_eq!(local_hour(-1, 0), 23);
    assert_eq!(local_hour(-86400, 3600), 1);
    assert_eq!(local_hour(86399, 1), 0);
}

#[test]
fn clock_based_questions_answer_for_the_present() {
    let far_future = Timestamp { secs: 32_503_680_000, nanos: 0 }; // year 3000
    let mut data = empty_data(far_future, true);
    assert!(data.has_tomorrow_prices());
    assert!(!data.should_fetch_new_price_data("Europe/Oslo"));
    assert_eq!(data.current_price(), None);
    data.prices.insert(Timestamp { secs: 0, nanos: 0 }, 0.25f64.to_bits());
    data.prices.insert(far_future, 9.0f64.to_bits());
    assert_eq!(price(data.current_price()), Some(0.25));
    let past = empty_data(Timestamp { secs: 0, nanos: 0 }, true);
    assert!(!past.has_tomorrow_prices());
}

#[test]
fn the_clock_reads_the_present() {
    let now = tibber_cli::time::current_time();
    assert!(now.nanos < 1_000_000_000);
    // later than 2020-01-01 and earlier than 3000-01-01
    assert!(now.secs > 1_577_836_800);
    assert!(now.secs < 32_503_680_000);
}

#[test]
fn clock_readings_before_and_after_the_epoch() {
    assert_eq!(timestamp_of_reading(Ok((5, 250))), Timestamp { secs: 5, nanos: 250 });
    assert_eq!(timestamp_of_reading(Err((3, 0))), Timestamp { secs: -3, nanos: 0 });
    assert_eq!(
        timestamp_of_reading(Err((1, 500_000_000))),
        Timestamp { secs: -2, nanos: 500_000_000 }
    );
    assert_eq!(timestamp_of_reading(Ok((u64::MAX, 7))), Timestamp { secs: i64::MAX, nanos: 999_999_999 });
    assert_eq!(timestamp_of_reading(Err((u64::MAX, 7))), Timestamp { secs: i64::MIN, nanos: 0 });
    assert_eq!(
        timestamp_of_reading(Err((i64::MAX as u64, 1))),
        Timestamp { secs: i64::MIN, nanos: 999_999_999 }
    );
}
