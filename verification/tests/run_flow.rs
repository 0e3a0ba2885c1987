use tibber_cli::api::{Home, HomeId, PriceData};
use tibber_cli::price_table::PriceTable;
use tibber_cli::time::Timestamp;
use tibber_cli::{
    needs_price_fetch, run, show_current_price_cmd, Action, Cli, Effect, Event, FetchMode, PriceFormat, RunError,
    RunState, ShowDecision,
};

fn cli(action: Action, fetch_mode: FetchMode, cache_only: bool) -> Cli {
    Cli { access_token: "token".to_owned(), home_id: None, fetch_mode, cache_only, action }
}

fn home(id: &str) -> Home {
    Home { id: HomeId(id.to_owned()), name: format!("Home {id}"), time_zone: "Europe/Oslo".to_owned() }
}

// 2023-01-01 10:00:00 UTC, 11:00 in Oslo
const MORNING: i64 = 1_672_567_200;
// 2023-01-01 15:00:00 UTC, 16:00 in Oslo
const AFTERNOON: i64 = 1_672_585_200;

fn at(secs: i64) -> Timestamp {
    Timestamp { secs, nanos: 0 }
}

fn data_with_price(start: i64, total: f64, includes_next_day: bool) -> PriceData {
    let mut prices = PriceTable::new();
    prices.insert(at(start), total.to_bits());
    PriceData { prices, currency: Some("SEK".to_owned()), stale_after: at(start + 3600), includes_next_day }
}

/// Drives a run up to the point where the homes are known.
fn to_homes(c: &Cli) -> RunState {
    let (s, e) = run(c, RunState::Start, Event::Started);
    assert!(matches!(e, Effect::PrepareCacheDir));
    let (s, e) = run(c, s, Event::CacheDirReady);
    assert!(matches!(e, Effect::ReadHomesCache));
    s
}

#[test]
fn clear_cache_clears_and_finishes() {
    let c = cli(Action::ClearCache, FetchMode::Smart, false);
    let (s, e) = run(&c, RunState::Start, Event::Started);
    assert!(matches!(e, Effect::PrepareCacheDir));
    let (s, e) = run(&c, s, Event::CacheDirReady);
    assert!(matches!(e, Effect::ClearCache));
    let (s, e) = run(&c, s, Event::OutputDone);
    assert!(matches!(s, RunState::Finished));
    assert!(matches!(e, Effect::Finish { result: Ok(()) }));
}

#[test]
fn list_homes_fetches_homes_when_not_cached() {
    let c = cli(Action::ListHomes, FetchMode::Smart, false);
    let s = to_homes(&c);
    let (s, e) = run(&c, s, Event::HomesCacheRead { cached_homes: None });
    assert!(matches!(e, Effect::FetchHomes));
    let (s, e) = run(&c, s, Event::HomesFetched { homes: vec![home("a"), home("b")] });
    match e {
        Effect::ListHomes { homes } => assert_eq!(homes.len(), 2),
        other => panic!("unexpected effect {other:?}"),
    }
    let (_, e) = run(&c, s, Event::OutputDone);
    assert!(matches!(e, Effect::Finish { result: Ok(()) }));
}

#[test]
fn cache_only_without_cached_homes_fails() {
    let c = cli(Action::ListHomes, FetchMode::Smart, true);
    let s = to_homes(&c);
    let (s, e) = run(&c, s, Event::HomesCacheRead { cached_homes: None });
    assert!(matches!(s, RunState::Finished));
    match e {
        Effect::Finish { result: Err(err) } => {
            assert!(matches!(err, RunError::NoCachedHomes));
            assert_eq!(
                err.message(),
                "no cached homes found; run without --cache-only first to populate the cache"
            );
        }
        other => panic!("unexpected effect {other:?}"),
    }
}

#[test]
fn several_homes_without_selection_fail() {
    let c = cli(Action::FetchPrices, FetchMode::Smart, false);
    let s = to_homes(&c);
    let (_, e) = run(&c, s, Event::HomesCacheRead { cached_homes: Some(vec![home("a"), home("b")]) });
    match e {
        Effect::Finish { result: Err(err) } => assert!(err.message().contains("--home-id")),
        other => panic!("unexpected effect {other:?}"),
    }
}

#[test]
fn selected_home_is_used() {
    let mut c = cli(Action::FetchPrices, FetchMode::Smart, false);
    c.home_id = Some(HomeId("b".to_owned()));
    let s = to_homes(&c);
    let (_, e) = run(&c, s, Event::HomesCacheRead { cached_homes: Some(vec![home("a"), home("b")]) });
    match e {
        Effect::ReadPriceCache { home } => assert_eq!(home.name, "Home b"),
        other => panic!("unexpected effect {other:?}"),
    }
}

#[test]
fn force_fetches_without_reading_the_cache() {
    let c = cli(Action::FetchPrices, FetchMode::Force, false);
    let s = to_homes(&c);
    let (s, e) = run(&c, s, Event::HomesCacheRead { cached_homes: Some(vec![home("a")]) });
    assert!(matches!(e, Effect::FetchPrices { .. }));
    let data = data_with_price(MORNING, 1.0, false);
    let (s, e) = run(&c, s, Event::PricesFetched { data, now: at(MORNING) });
    match e {
        Effect::ReportPricesCached { home_name } => assert_eq!(home_name, "Home a"),
        other => panic!("unexpected effect {other:?}"),
    }
    let (_, e) = run(&c, s, Event::OutputDone);
    assert!(matches!(e, Effect::Finish { result: Ok(()) }));
}

#[test]
fn smart_keeps_a_fresh_cache() {
    let c = cli(Action::FetchPrices, FetchMode::Smart, false);
    let s = to_homes(&c);
    let (s, _) = run(&c, s, Event::HomesCacheRead { cached_homes: Some(vec![home("a")]) });
    let cached = Some(data_with_price(MORNING, 1.0, false));
    // 11:00 in Oslo: too early for tomorrow's prices
    let (_, e) = run(&c, s, Event::PriceCacheRead { cached, now: at(MORNING) });
    match e {
        Effect::ReportCacheUpToDate { home_name } => assert_eq!(home_name, "Home a"),
        other => panic!("unexpected effect {other:?}"),
    }
}

#[test]
fn smart_fetches_a_stale_or_missing_cache() {
    let c = cli(Action::FetchPrices, FetchMode::Smart, false);
    let s = to_homes(&c);
    let (s, _) = run(&c, s, Event::HomesCacheRead { cached_homes: Some(vec![home("a")]) });
    let cached = Some(data_with_price(MORNING, 1.0, false));
    // 16:00 in Oslo without next-day prices
    let (_, e) = run(&c, s, Event::PriceCacheRead { cached, now: at(AFTERNOON) });
    assert!(matches!(e, Effect::FetchPrices { .. }));

    let s = to_homes(&c);
    let (s, _) = run(&c, s, Event::HomesCacheRead { cached_homes: Some(vec![home("a")]) });
    let (_, e) = run(&c, s, Event::PriceCacheRead { cached: None, now: at(MORNING) });
    assert!(matches!(e, Effect::FetchPrices { .. }));
}

#[test]
fn cache_only_never_fetches_prices() {
    let c = cli(Action::FetchPrices, FetchMode::Force, true);
    let s = to_homes(&c);
    let (_, e) = run(&c, s, Event::HomesCacheRead { cached_homes: Some(vec![home("a")]) });
    match e {
        Effect::Finish { result: Err(err) } => {
            assert_eq!(err.message(), "Home a: prices must be fetched, which --cache-only forbids")
        }
        other => panic!("unexpected effect {other:?}"),
    }

    let c = cli(Action::FetchPrices, FetchMode::Smart, true);
    let s = to_homes(&c);
    let (s, _) = run(&c, s, Event::HomesCacheRead { cached_homes: Some(vec![home("a")]) });
    let (_, e) = run(&c, s, Event::PriceCacheRead { cached: None, now: at(MORNING) });
    assert!(matches!(e, Effect::Finish { result: Err(RunError::FetchForbidden { .. }) }));
}

#[test]
fn show_uses_a_cached_price() {
    let c = cli(Action::ShowCurrentPrice { output_format: PriceFormat::Short }, FetchMode::Smart, false);
    let s = to_homes(&c);
    let (s, e) = run(&c, s, Event::HomesCacheRead { cached_homes: Some(vec![home("a")]) });
    assert!(matches!(e, Effect::ReadPriceCache { .. }));
    let cached = Some(data_with_price(MORNING, 0.2977, false));
    let (_, e) = run(&c, s, Event::PriceCacheRead { cached, now: at(MORNING + 60) });
    match e {
        Effect::ShowPrice { home_name, price_bits, currency, format } => {
            assert_eq!(home_name, "Home a");
            assert_eq!(price_bits.map(f64::from_bits), Some(0.2977));
            assert_eq!(currency.as_deref(), Some("SEK"));
            assert_eq!(format, PriceFormat::Short);
        }
        other => panic!("unexpected effect {other:?}"),
    }
}

#[test]
fn show_fetches_when_cache_has_no_current_price() {
    let c = cli(Action::ShowCurrentPrice { output_format: PriceFormat::Full }, FetchMode::Smart, false);
    let s = to_homes(&c);
    let (s, _) = run(&c, s, Event::HomesCacheRead { cached_homes: Some(vec![home("a")]) });
    let cached = Some(data_with_price(AFTERNOON, 1.0, false));
    let (s, e) = run(&c, s, Event::PriceCacheRead { cached, now: at(MORNING) });
    assert!(matches!(e, Effect::FetchPrices { .. }));
    let data = data_with_price(MORNING, 2.0, true);
    let (_, e) = run(&c, s, Event::PricesFetched { data, now: at(MORNING + 5) });
    match e {
        Effect::ShowPrice { price_bits, format, .. } => {
            assert_eq!(price_bits.map(f64::from_bits), Some(2.0));
            assert_eq!(format, PriceFormat::Full);
        }
        other => panic!("unexpected effect {other:?}"),
    }
}

#[test]
fn show_cache_only_reports_missing_price() {
    let c = cli(Action::ShowCurrentPrice { output_format: PriceFormat::Full }, FetchMode::Smart, true);
    let s = to_homes(&c);
    let (s, _) = run(&c, s, Event::HomesCacheRead { cached_homes: Some(vec![home("a")]) });
    let (_, e) = run(&c, s, Event::PriceCacheRead { cached: None, now: at(MORNING) });
    match e {
        Effect::Finish { result: Err(err) } => assert_eq!(err.message(), "Home a: no current price available"),
        other => panic!("unexpected effect {other:?}"),
    }

    // A cache without a current price is shown as such, not fetched.
    let s = to_homes(&c);
    let (s, _) = run(&c, s, Event::HomesCacheRead { cached_homes: Some(vec![home("a")]) });
    let cached = Some(data_with_price(AFTERNOON, 1.0, false));
    let (_, e) = run(&c, s, Event::PriceCacheRead { cached, now: at(MORNING) });
    assert!(matches!(e, Effect::ShowPrice { price_bits: None, .. }));
}

#[test]
fn out_of_order_events_end_the_run() {
    let c = cli(Action::ListHomes, FetchMode::Smart, false);
    let (s, e) = run(&c, RunState::Start, Event::OutputDone);
    assert!(matches!(s, RunState::Finished));
    match e {
        Effect::Finish { result: Err(err) } => {
            assert!(matches!(err, RunError::UnexpectedEvent));
            assert_eq!(err.message(), "the event does not fit the state of the run");
        }
        other => panic!("unexpected effect {other:?}"),
    }
}

#[test]
fn needs_fetch_by_mode() {
    let stale = data_with_price(MORNING, 1.0, false);
    let fresh = data_with_price(MORNING, 1.0, true);
    assert!(needs_price_fetch(FetchMode::Force, Some(&fresh), "Europe/Oslo", at(MORNING)));
    assert!(needs_price_fetch(FetchMode::Smart, None, "Europe/Oslo", at(MORNING)));
    assert!(!needs_price_fetch(FetchMode::Smart, Some(&stale), "Europe/Oslo", at(MORNING)));
    assert!(needs_price_fetch(FetchMode::Smart, Some(&stale), "Europe/Oslo", at(AFTERNOON)));
    // next-day prices were valid until an hour after the single point
    assert!(needs_price_fetch(FetchMode::Smart, Some(&fresh), "Europe/Oslo", at(AFTERNOON)));
}

#[test]
fn show_decisions() {
    let d = || Some(data_with_price(MORNING, 1.5, false));
    assert!(matches!(show_current_price_cmd(false, None, at(MORNING)), ShowDecision::FetchFirst));
    assert!(matches!(show_current_price_cmd(true, None, at(MORNING)), ShowDecision::NoPrice));
    assert!(matches!(show_current_price_cmd(false, d(), at(MORNING - 1)), ShowDecision::FetchFirst));
    assert!(matches!(
        show_current_price_cmd(true, d(), at(MORNING - 1)),
        ShowDecision::Show { price_bits: None, .. }
    ));
    match show_current_price_cmd(false, d(), at(MORNING)) {
        ShowDecision::Show { price_bits, currency } => {
            assert_eq!(price_bits.map(f64::from_bits), Some(1.5));
            assert_eq!(currency.as_deref(), Some("SEK"));
        }
        other => panic!("unexpected decision {other:?}"),
    }
}
