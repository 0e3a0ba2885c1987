//! Tibber CLI library: energy price data from the Tibber API, cached so that
//! prices can be looked up without calling the API.
//!
//! The command-line flow is a step function: [`run`] takes the state reached so
//! far and what the last effect produced, and answers with the next state and
//! the next effect to perform (reading or writing the cache, calling the API,
//! printing). The decisions (which home, whether to fetch, what to print) are
//! made here; the effects are performed by the caller.

use vstd::prelude::*;
use vstd::string::StringExecFns;

use crate::api::{Home, HomeId, PriceData};
use crate::api::due_after_two_pm;
use crate::price_table::{
    has_key_at_or_before, is_price_in_effect, lemma_price_at_in_effect, lemma_table_finite, price_at,
};
use crate::time::Timestamp;

/// Tibber GraphQL API answers shaped into homes and price data.
pub mod api;
/// Price points keyed by their start instant.
pub mod price_table;
/// Instants and the hour of the day in a time zone.
pub mod time;

verus! {

/// Controls when price data is fetched from the API.
#[derive(Debug, Clone, Copy, Default, PartialEq, Eq, Structural)]
pub enum FetchMode {
    /// Only fetch when cached data is missing or stale (after 14:00 without
    /// next-day prices).
    #[default]
    Smart,
    /// Always fetch fresh data from the API.
    Force,
}

/// Controls the output format for price display.
#[derive(Debug, Clone, Copy, Default, PartialEq, Eq, Structural)]
pub enum PriceFormat {
    /// Full output: `home: price currency`.
    #[default]
    Full,
    /// Short output: price amount only (e.g. `0.2977`).
    Short,
}

/// The main actions available in the Tibber CLI.
#[derive(Debug, Clone, Copy, PartialEq, Eq, Structural)]
pub enum Action {
    /// Show the current energy price.
    ShowCurrentPrice {
        /// Output format for price display.
        output_format: PriceFormat,
    },
    /// Fetch and cache energy prices, then exit.
    FetchPrices,
    /// List all available homes and exit.
    ListHomes,
    /// Clear all cached data (homes and prices) and exit.
    ClearCache,
}

/// Command-line arguments for the Tibber CLI.
#[derive(Debug)]
pub struct Cli {
    /// The Tibber API access token.
    pub access_token: String,
    /// Home ID to operate on (auto-selected when there is only one home).
    pub home_id: Option<HomeId>,
    /// When to fetch fresh price data from the API.
    pub fetch_mode: FetchMode,
    /// Never make API calls: only read from cache. Fails if the cache is
    /// empty.
    pub cache_only: bool,
    /// The action to perform.
    pub action: Action,
}

/// Why no home could be selected.
#[derive(Debug, PartialEq)]
pub enum ResolveError {
    /// No home has the requested ID.
    HomeNotFound(HomeId),
    /// The account has no homes.
    NoHomes,
    /// There are several homes and none was selected.
    MultipleHomes,
}

/// The message of a [`ResolveError`].
pub open spec fn resolve_error_message(e: ResolveError) -> Seq<char> {
    match e {
        ResolveError::HomeNotFound(id) => "home with ID '"@ + id@ + "' not found"@,
        ResolveError::NoHomes => "no homes found in your Tibber account"@,
        ResolveError::MultipleHomes =>
            "multiple homes found; use --home-id to select one, or --list-homes to see available homes"@,
    }
}

impl ResolveError {
    /// The message that describes the error.
    pub fn message(&self) -> (r: String)
        ensures
            r@ == resolve_error_message(*self),
    {
        match self {
            ResolveError::HomeNotFound(id) => {
                let mut m = String::from_str("home with ID '");
                m.append(id.as_str());
                m.append("' not found");
                m
            },
            ResolveError::NoHomes => String::from_str("no homes found in your Tibber account"),
            ResolveError::MultipleHomes => String::from_str(
                "multiple homes found; use --home-id to select one, or --list-homes to see available homes",
            ),
        }
    }
}

/// The first home of `homes` whose ID is `id`.
pub open spec fn find_home(homes: Seq<Home>, id: Seq<char>) -> Option<Home>
    decreases homes.len(),
{
    if homes.len() == 0 {
        None
    } else if homes[0].id@ == id {
        Some(homes[0])
    } else {
        find_home(homes.drop_first(), id)
    }
}

/// The home to operate on: the first one with the requested ID; without a
/// request, the only home there is.
pub open spec fn resolve_home_spec(home_id: Option<HomeId>, homes: Seq<Home>) -> Result<Home, ResolveError> {
    match home_id {
        Some(id) => match find_home(homes, id@) {
            Some(h) => Ok(h),
            None => Err(ResolveError::HomeNotFound(id)),
        },
        None => if homes.len() == 0 {
            Err(ResolveError::NoHomes)
        } else if homes.len() == 1 {
            Ok(homes[0])
        } else {
            Err(ResolveError::MultipleHomes)
        },
    }
}

/// Selects which home to operate on.
///
/// If `home_id` is provided, the matching home is returned. If there is exactly
/// one home, it is selected automatically. Otherwise an error is returned
/// requesting the user to disambiguate.
pub fn resolve_home<'a>(home_id: Option<&HomeId>, homes: &'a [Home]) -> (r: Result<&'a Home, ResolveError>)
    ensures
        match r {
            Ok(h) => resolve_home_spec(
                match home_id {
                    Some(id) => Some(*id),
                    None => None,
                },
                homes@,
            ) == Ok::<Home, ResolveError>(*h),
            Err(e) => resolve_home_spec(
                match home_id {
                    Some(id) => Some(*id),
                    None => None,
                },
                homes@,
            ) == Err::<Home, ResolveError>(e),
        },
{
    match home_id {
        Some(id) => {
            let mut i: usize = 0;
            assert(homes@.skip(0) =~= homes@);
            while i < homes.len()
                invariant
                    i <= homes@.len(),
                    home_id == Some(id),
                    find_home(homes@, id@) == find_home(homes@.skip(i as int), id@),
                decreases homes@.len() - i,
            {
                assert(homes@.skip(i as int)[0] == homes@[i as int]);
                if homes[i].id.0 == id.0 {
                    assert(homes@.skip(i as int).len() > 0);
                    assert(find_home(homes@.skip(i as int), id@) == Some(homes@[i as int]));
                    return Ok(&homes[i]);
                }
                assert(homes@.skip(i as int).drop_first() =~= homes@.skip(i + 1));
                i = i + 1;
            }
            assert(homes@.skip(i as int).len() == 0);
            Err(ResolveError::HomeNotFound(id.clone()))
        },
        None => {
            if homes.len() == 0 {
                Err(ResolveError::NoHomes)
            } else if homes.len() == 1 {
                Ok(&homes[0])
            } else {
                Err(ResolveError::MultipleHomes)
            }
        },
    }
}


/// Whether the price data must be fetched: always in `Force` mode, and in
/// `Smart` mode where nothing is cached or the cached data is stale for a home
/// in the zone named `home_tz` at `now`.
pub open spec fn needs_fetch_spec(
    fetch_mode: FetchMode,
    cached: Option<PriceData>,
    home_tz: Seq<char>,
    now: Timestamp,
) -> bool {
    match fetch_mode {
        FetchMode::Force => true,
        FetchMode::Smart => match cached {
            None => true,
            Some(d) => d.should_fetch_spec(home_tz, now),
        },
    }
}

/// Decides whether the price data must be fetched, as `needs_fetch_spec` says.
pub fn needs_price_fetch(fetch_mode: FetchMode, cached: Option<&PriceData>, home_tz: &str, now: Timestamp) -> (r:
    bool)
    ensures
        r == needs_fetch_spec(
            fetch_mode,
            match cached {
                Some(d) => Some(*d),
                None => None,
            },
            home_tz@,
            now,
        ),
{
    match fetch_mode {
        FetchMode::Force => true,
        FetchMode::Smart => match cached {
            None => true,
            Some(d) => d.should_fetch_new_price_data_at(home_tz, now),
        },
    }
}

/// What showing the current price comes to, given the cached price data.
#[derive(Debug)]
pub enum ShowDecision {
    /// Fetch the price data first: the cache holds no price for now.
    FetchFirst,
    /// Show this price (`None`: report that there is no current price).
    Show { price_bits: Option<u64>, currency: Option<String> },
    /// Fail: nothing is cached and the API may not be called.
    NoPrice,
}

/// What showing the current price at `now` comes to: where the cache holds no
/// price in effect at `now`, fetch first unless only the cache may be read;
/// otherwise show what the cache holds, or fail where nothing is cached.
pub open spec fn show_decision_spec(cache_only: bool, cached: Option<PriceData>, now: Timestamp) -> ShowDecision {
    let has_price = match cached {
        Some(d) => price_at(d.prices@, now) is Some,
        None => false,
    };
    if !has_price && !cache_only {
        ShowDecision::FetchFirst
    } else {
        match cached {
            Some(d) => ShowDecision::Show { price_bits: price_at(d.prices@, now), currency: d.currency },
            None => ShowDecision::NoPrice,
        }
    }
}

/// Decides how to show the current energy price at `now`, from what the
/// cache holds (`None`: no cache file).
pub fn show_current_price_cmd(cache_only: bool, cached: Option<PriceData>, now: Timestamp) -> (r: ShowDecision)
    ensures
        r == show_decision_spec(cache_only, cached, now),
{
    match cached {
        Some(d) => {
            let price = d.current_price_at(now);
            if price.is_none() && !cache_only {
                ShowDecision::FetchFirst
            } else {
                ShowDecision::Show { price_bits: price, currency: d.currency }
            }
        },
        None => if cache_only {
            ShowDecision::NoPrice
        } else {
            ShowDecision::FetchFirst
        },
    }
}

/// Why a run failed.
#[derive(Debug)]
pub enum RunError {
    /// `--cache-only` was given and no homes are cached.
    NoCachedHomes,
    /// No home could be selected.
    Resolve(ResolveError),
    /// `--cache-only` was given and nothing is cached for the home.
    NoCurrentPrice { home_name: String },
    /// Prices would have to be fetched, which `--cache-only` forbids.
    FetchForbidden { home_name: String },
    /// The event does not answer the effect that the state asked for.
    UnexpectedEvent,
}

impl RunError {
    /// The message that describes the error.
    pub fn message(&self) -> (r: String)
        ensures
            match self {
                RunError::NoCachedHomes => r@
                    == "no cached homes found; run without --cache-only first to populate the cache"@,
                RunError::Resolve(e) => r@ == resolve_error_message(*e),
                RunError::NoCurrentPrice { home_name } => r@ == home_name@ + ": no current price available"@,
                RunError::FetchForbidden { home_name } => r@ == home_name@
                    + ": prices must be fetched, which --cache-only forbids"@,
                RunError::UnexpectedEvent => r@ == "the event does not fit the state of the run"@,
            },
    {
        match self {
            RunError::NoCachedHomes => String::from_str(
                "no cached homes found; run without --cache-only first to populate the cache",
            ),
            RunError::Resolve(e) => e.message(),
            RunError::NoCurrentPrice { home_name } => {
                let mut m = home_name.clone();
                m.append(": no current price available");
                m
            },
            RunError::FetchForbidden { home_name } => {
                let mut m = home_name.clone();
                m.append(": prices must be fetched, which --cache-only forbids");
                m
            },
            RunError::UnexpectedEvent => String::from_str("the event does not fit the state of the run"),
        }
    }
}

/// Where a run stands: which effect's outcome it waits for.
#[derive(Debug)]
pub enum RunState {
    /// Nothing done yet.
    Start,
    /// Waiting for the cache directory to be ready.
    AwaitingCacheDir,
    /// Waiting for the homes cache to be read.
    AwaitingHomesCache,
    /// Waiting for the homes to be fetched from the API and cached.
    AwaitingFetchedHomes,
    /// Waiting for the price cache of `home` to be read.
    AwaitingPriceCache { home: Home },
    /// Waiting for the prices of `home` to be fetched from the API and cached.
    AwaitingFetchedPrices { home: Home },
    /// Waiting for the final output to be done.
    AwaitingOutput,
    /// The run is over.
    Finished,
}

/// The outcome of the effect that a run asked for.
pub enum Event {
    /// The run begins.
    Started,
    /// The cache directory exists.
    CacheDirReady,
    /// The homes cache was read (`None`: there is no homes cache).
    HomesCacheRead { cached_homes: Option<Vec<Home>> },
    /// The homes were fetched from the API and cached.
    HomesFetched { homes: Vec<Home> },
    /// The price cache was read (`None`: there is none) and the clock showed
    /// `now`.
    PriceCacheRead { cached: Option<PriceData>, now: Timestamp },
    /// The prices were fetched from the API and cached, after which the clock
    /// showed `now`.
    PricesFetched { data: PriceData, now: Timestamp },
    /// The output was done.
    OutputDone,
}

/// What a run asks its caller to do next.
#[derive(Debug)]
pub enum Effect {
    /// Determine the cache directory and create it.
    PrepareCacheDir,
    /// Remove the cache directory and say so.
    ClearCache,
    /// Read the homes cache, if there is one.
    ReadHomesCache,
    /// Fetch the homes from the API and write the homes cache.
    FetchHomes,
    /// Print the list of homes.
    ListHomes { homes: Vec<Home> },
    /// Read the price cache of `home`, if there is one, and the clock.
    ReadPriceCache { home: Home },
    /// Fetch the prices of `home` from the API, write its price cache, and read
    /// the clock.
    FetchPrices { home: Home },
    /// Say that the prices of the home were cached.
    ReportPricesCached { home_name: String },
    /// Say that the price cache of the home is up to date.
    ReportCacheUpToDate { home_name: String },
    /// Print a price of the home (`None`: say that there is no current price).
    ShowPrice { home_name: String, price_bits: Option<u64>, currency: Option<String>, format: PriceFormat },
    /// End the run with this result.
    Finish { result: Result<(), RunError> },
}

/// The answer to an event that does not fit the state.
pub open spec fn unexpected() -> (RunState, Effect) {
    (RunState::Finished, Effect::Finish { result: Err(RunError::UnexpectedEvent) })
}

/// The next step once the homes are known: list them, or select the home and
/// go on with its prices.
pub open spec fn after_homes(cli: Cli, homes: Vec<Home>) -> (RunState, Effect) {
    if cli.action == Action::ListHomes {
        (RunState::AwaitingOutput, Effect::ListHomes { homes })
    } else {
        match resolve_home_spec(cli.home_id, homes@) {
            Err(e) => (RunState::Finished, Effect::Finish { result: Err(RunError::Resolve(e)) }),
            Ok(home) => match cli.action {
                Action::FetchPrices => if cli.fetch_mode == FetchMode::Force {
                    if cli.cache_only {
                        (
                            RunState::Finished,
                            Effect::Finish { result: Err(RunError::FetchForbidden { home_name: home.name }) },
                        )
                    } else {
                        (RunState::AwaitingFetchedPrices { home }, Effect::FetchPrices { home })
                    }
                } else {
                    (RunState::AwaitingPriceCache { home }, Effect::ReadPriceCache { home })
                },
                Action::ShowCurrentPrice { .. } => (
                    RunState::AwaitingPriceCache { home },
                    Effect::ReadPriceCache { home },
                ),
                _ => unexpected(),
            },
        }
    }
}

/// The next step once the price cache of `home` was read at `now`.
pub open spec fn after_price_cache(cli: Cli, home: Home, cached: Option<PriceData>, now: Timestamp) -> (
    RunState,
    Effect,
) {
    match cli.action {
        Action::FetchPrices => if needs_fetch_spec(cli.fetch_mode, cached, home.time_zone@, now) {
            if cli.cache_only {
                (
                    RunState::Finished,
                    Effect::Finish { result: Err(RunError::FetchForbidden { home_name: home.name }) },
                )
            } else {
                (RunState::AwaitingFetchedPrices { home }, Effect::FetchPrices { home })
            }
        } else {
            (RunState::AwaitingOutput, Effect::ReportCacheUpToDate { home_name: home.name })
        },
        Action::ShowCurrentPrice { output_format } => match show_decision_spec(cli.cache_only, cached, now) {
            ShowDecision::FetchFirst => (RunState::AwaitingFetchedPrices { home }, Effect::FetchPrices { home }),
            ShowDecision::Show { price_bits, currency } => (
                RunState::AwaitingOutput,
                Effect::ShowPrice { home_name: home.name, price_bits, currency, format: output_format },
            ),
            ShowDecision::NoPrice => (
                RunState::Finished,
                Effect::Finish { result: Err(RunError::NoCurrentPrice { home_name: home.name }) },
            ),
        },
        _ => unexpected(),
    }
}

/// The next step once the prices of `home` were fetched and cached, the clock
/// showing `now` afterwards.
pub open spec fn after_prices_fetched(cli: Cli, home: Home, data: PriceData, now: Timestamp) -> (
    RunState,
    Effect,
) {
    match cli.action {
        Action::FetchPrices => (RunState::AwaitingOutput, Effect::ReportPricesCached { home_name: home.name }),
        Action::ShowCurrentPrice { output_format } => (
            RunState::AwaitingOutput,
            Effect::ShowPrice {
                home_name: home.name,
                price_bits: price_at(data.prices@, now),
                currency: data.currency,
                format: output_format,
            },
        ),
        _ => unexpected(),
    }
}

/// One step of a run of the command line `cli`: from the state reached and
/// the outcome of the last effect, the next state and the next effect.
pub open spec fn step(cli: Cli, state: RunState, event: Event) -> (RunState, Effect) {
    match (state, event) {
        (RunState::Start, Event::Started) => (RunState::AwaitingCacheDir, Effect::PrepareCacheDir),
        (RunState::AwaitingCacheDir, Event::CacheDirReady) => if cli.action == Action::ClearCache {
            (RunState::AwaitingOutput, Effect::ClearCache)
        } else {
            (RunState::AwaitingHomesCache, Effect::ReadHomesCache)
        },
        (RunState::AwaitingHomesCache, Event::HomesCacheRead { cached_homes }) => match cached_homes {
            Some(h) => after_homes(cli, h),
            None => if cli.cache_only {
                (RunState::Finished, Effect::Finish { result: Err(RunError::NoCachedHomes) })
            } else {
                (RunState::AwaitingFetchedHomes, Effect::FetchHomes)
            },
        },
        (RunState::AwaitingFetchedHomes, Event::HomesFetched { homes }) => after_homes(cli, homes),
        (RunState::AwaitingPriceCache { home }, Event::PriceCacheRead { cached, now }) => after_price_cache(
            cli,
            home,
            cached,
            now,
        ),
        (RunState::AwaitingFetchedPrices { home }, Event::PricesFetched { data, now }) => after_prices_fetched(
            cli,
            home,
            data,
            now,
        ),
        (RunState::AwaitingOutput, Event::OutputDone) => (RunState::Finished, Effect::Finish { result: Ok(()) }),
        _ => unexpected(),
    }
}

fn unexpected_step() -> (r: (RunState, Effect))
    ensures
        r == unexpected(),
{
    (RunState::Finished, Effect::Finish { result: Err(RunError::UnexpectedEvent) })
}

fn step_after_homes(cli: &Cli, homes: Vec<Home>) -> (r: (RunState, Effect))
    ensures
        r == after_homes(*cli, homes),
{
    if cli.action == Action::ListHomes {
        return (RunState::AwaitingOutput, Effect::ListHomes { homes });
    }
    let resolved = resolve_home(cli.home_id.as_ref(), homes.as_slice());
    match resolved {
        Err(e) => (RunState::Finished, Effect::Finish { result: Err(RunError::Resolve(e)) }),
        Ok(h) => {
            let home = h.clone();
            match cli.action {
                Action::FetchPrices => if cli.fetch_mode == FetchMode::Force {
                    if cli.cache_only {
                        (
                            RunState::Finished,
                            Effect::Finish { result: Err(RunError::FetchForbidden { home_name: home.name }) },
                        )
                    } else {
                        (RunState::AwaitingFetchedPrices { home: home.clone() }, Effect::FetchPrices { home })
                    }
                } else {
                    (RunState::AwaitingPriceCache { home: home.clone() }, Effect::ReadPriceCache { home })
                },
                Action::ShowCurrentPrice { .. } => (
                    RunState::AwaitingPriceCache { home: home.clone() },
                    Effect::ReadPriceCache { home },
                ),
                _ => unexpected_step(),
            }
        },
    }
}

fn step_after_price_cache(cli: &Cli, home: Home, cached: Option<PriceData>, now: Timestamp) -> (r: (
    RunState,
    Effect,
))
    ensures
        r == after_price_cache(*cli, home, cached, now),
{
    match cli.action {
        Action::FetchPrices => if needs_price_fetch(cli.fetch_mode, cached.as_ref(), home.time_zone.as_str(), now) {
            if cli.cache_only {
                (
                    RunState::Finished,
                    Effect::Finish { result: Err(RunError::FetchForbidden { home_name: home.name }) },
                )
            } else {
                (RunState::AwaitingFetchedPrices { home: home.clone() }, Effect::FetchPrices { home })
            }
        } else {
            (RunState::AwaitingOutput, Effect::ReportCacheUpToDate { home_name: home.name })
        },
        Action::ShowCurrentPrice { output_format } => match show_current_price_cmd(cli.cache_only, cached, now) {
            ShowDecision::FetchFirst => (
                RunState::AwaitingFetchedPrices { home: home.clone() },
                Effect::FetchPrices { home },
            ),
            ShowDecision::Show { price_bits, currency } => (
                RunState::AwaitingOutput,
                Effect::ShowPrice { home_name: home.name, price_bits, currency, format: output_format },
            ),
            ShowDecision::NoPrice => (
                RunState::Finished,
                Effect::Finish { result: Err(RunError::NoCurrentPrice { home_name: home.name }) },
            ),
        },
        _ => unexpected_step(),
    }
}

fn step_after_prices_fetched(cli: &Cli, home: Home, data: PriceData, now: Timestamp) -> (r: (RunState, Effect))
    ensures
        r == after_prices_fetched(*cli, home, data, now),
{
    match cli.action {
        Action::FetchPrices => (RunState::AwaitingOutput, Effect::ReportPricesCached { home_name: home.name }),
        Action::ShowCurrentPrice { output_format } => {
            let price_bits = data.current_price_at(now);
            (
                RunState::AwaitingOutput,
                Effect::ShowPrice { home_name: home.name, price_bits, currency: data.currency, format: output_format },
            )
        },
        _ => unexpected_step(),
    }
}

/// Runs the CLI application logic one step at a time: given the state reached
/// and the outcome of the last effect, returns the next state and the next
/// effect for the caller to perform. A run begins in [`RunState::Start`] with
/// [`Event::Started`] and ends with [`Effect::Finish`].
pub fn run(cli: &Cli, state: RunState, event: Event) -> (r: (RunState, Effect))
    ensures
        r == step(*cli, state, event),
{
    match (state, event) {
        (RunState::Start, Event::Started) => (RunState::AwaitingCacheDir, Effect::PrepareCacheDir),
        (RunState::AwaitingCacheDir, Event::CacheDirReady) => if cli.action == Action::ClearCache {
            (RunState::AwaitingOutput, Effect::ClearCache)
        } else {
            (RunState::AwaitingHomesCache, Effect::ReadHomesCache)
        },
        (RunState::AwaitingHomesCache, Event::HomesCacheRead { cached_homes }) => match cached_homes {
            Some(h) => step_after_homes(cli, h),
            None => if cli.cache_only {
                (RunState::Finished, Effect::Finish { result: Err(RunError::NoCachedHomes) })
            } else {
                (RunState::AwaitingFetchedHomes, Effect::FetchHomes)
            },
        },
        (RunState::AwaitingFetchedHomes, Event::HomesFetched { homes }) => step_after_homes(cli, homes),
        (RunState::AwaitingPriceCache { home }, Event::PriceCacheRead { cached, now }) => step_after_price_cache(
            cli,
            home,
            cached,
            now,
        ),
        (RunState::AwaitingFetchedPrices { home }, Event::PricesFetched { data, now }) => step_after_prices_fetched(
            cli,
            home,
            data,
            now,
        ),
        (RunState::AwaitingOutput, Event::OutputDone) => (RunState::Finished, Effect::Finish { result: Ok(()) }),
        _ => unexpected_step(),
    }
}


/// The home found for an ID has that ID and is one of the homes; where none
/// is found, no home has that ID.
pub proof fn lemma_find_home(homes: Seq<Home>, id: Seq<char>)
    ensures
        find_home(homes, id) matches Some(h) ==> h.id@ == id && homes.contains(h),
        find_home(homes, id) is None ==> forall|i: int| 0 <= i < homes.len() ==> (#[trigger] homes[i]).id@ != id,
    decreases homes.len(),
{
    if homes.len() > 0 {
        lemma_find_home(homes.drop_first(), id);
        if homes[0].id@ != id {
            if let Some(h) = find_home(homes, id) {
                let j = choose|j: int| 0 <= j < homes.drop_first().len() && homes.drop_first()[j] == h;
                assert(homes[j + 1] == h);
            }
            assert forall|i: int| 0 <= i < homes.len() && find_home(homes, id) is None implies (
            #[trigger] homes[i]).id@ != id by {
                if i > 0 {
                    assert(homes[i] == homes.drop_first()[i - 1]);
                }
            }
        }
    }
}

/// The home found for an ID is the first home with that ID.
pub proof fn lemma_find_home_first(homes: Seq<Home>, id: Seq<char>)
    ensures
        find_home(homes, id) matches Some(h) ==> exists|i: int|
            0 <= i < homes.len() && homes[i] == h && h.id@ == id && (forall|j: int|
                0 <= j < i ==> (#[trigger] homes[j]).id@ != id),
    decreases homes.len(),
{
    if homes.len() > 0 && homes[0].id@ != id {
        let rest = homes.drop_first();
        lemma_find_home_first(rest, id);
        if let Some(h) = find_home(homes, id) {
            let i = choose|i: int|
                0 <= i < rest.len() && rest[i] == h && h.id@ == id && (forall|j: int|
                    0 <= j < i ==> (#[trigger] rest[j]).id@ != id);
            assert(homes[i + 1] == h);
            assert forall|j: int| 0 <= j < i + 1 implies (#[trigger] homes[j]).id@ != id by {
                if j > 0 {
                    assert(homes[j] == rest[j - 1]);
                }
            }
        }
    } else if homes.len() > 0 {
        assert(homes[0].id@ == id);
    }
}

/// `h` is the home to operate on among `homes`: the first home with the
/// requested ID, or, without a request, the only home there is.
pub open spec fn is_selected(home_id: Option<HomeId>, homes: Seq<Home>, h: Home) -> bool {
    match home_id {
        Some(id) => exists|i: int|
            0 <= i < homes.len() && homes[i] == h && h.id@ == id@ && (forall|j: int|
                0 <= j < i ==> (#[trigger] homes[j]).id@ != id@),
        None => homes.len() == 1 && h == homes[0],
    }
}

/// Selecting a home gives the first home with the requested ID, or without a
/// request the only home; it fails with `HomeNotFound` for that ID where no
/// home has it, with `NoHomes` where there are none, and with `MultipleHomes`
/// where there are several.
pub proof fn lemma_resolve_home_selects(home_id: Option<HomeId>, homes: Seq<Home>)
    ensures
        resolve_home_spec(home_id, homes) matches Ok(h) ==> is_selected(home_id, homes, h),
        forall|h: Home| #[trigger]
            is_selected(home_id, homes, h) ==> resolve_home_spec(home_id, homes) == Ok::<Home, ResolveError>(h),
        resolve_home_spec(home_id, homes) matches Err(e) ==> match home_id {
            Some(id) => e == ResolveError::HomeNotFound(id) && forall|i: int|
                0 <= i < homes.len() ==> (#[trigger] homes[i]).id@ != id@,
            None => (homes.len() == 0 && e == ResolveError::NoHomes) || (homes.len() > 1 && e
                == ResolveError::MultipleHomes),
        },
{
    if let Some(id) = home_id {
        lemma_find_home(homes, id@);
        lemma_find_home_first(homes, id@);
        assert forall|h: Home| #[trigger] is_selected(home_id, homes, h) implies resolve_home_spec(home_id, homes)
            == Ok::<Home, ResolveError>(h) by {
            let i = choose|i: int|
                0 <= i < homes.len() && homes[i] == h && h.id@ == id@ && (forall|j: int|
                    0 <= j < i ==> (#[trigger] homes[j]).id@ != id@);
            assert(homes[i].id@ == id@);
            if let Some(h2) = find_home(homes, id@) {
                let i2 = choose|i2: int|
                    0 <= i2 < homes.len() && homes[i2] == h2 && h2.id@ == id@ && (forall|j: int|
                        0 <= j < i2 ==> (#[trigger] homes[j]).id@ != id@);
                if i < i2 {
                    assert(homes[i].id@ != id@);
                } else if i2 < i {
                    assert(homes[i2].id@ != id@);
                }
            }
        }
    }
}

/// Without a requested ID, a single home is selected on its own, and several
/// homes are an error.
pub proof fn lemma_auto_select(homes: Seq<Home>)
    ensures
        homes.len() == 1 ==> resolve_home_spec(None, homes) == Ok::<Home, ResolveError>(homes[0]),
        homes.len() > 1 ==> resolve_home_spec(None, homes) == Err::<Home, ResolveError>(
            ResolveError::MultipleHomes,
        ),
        homes.len() == 0 ==> resolve_home_spec(None, homes) == Err::<Home, ResolveError>(ResolveError::NoHomes),
{
}

/// How far a run has come: every step of a run that is not over moves it to a
/// later stage, so that each run ends.
pub open spec fn stage(s: RunState) -> nat {
    match s {
        RunState::Start => 0,
        RunState::AwaitingCacheDir => 1,
        RunState::AwaitingHomesCache => 2,
        RunState::AwaitingFetchedHomes => 3,
        RunState::AwaitingPriceCache { .. } => 4,
        RunState::AwaitingFetchedPrices { .. } => 5,
        RunState::AwaitingOutput => 6,
        RunState::Finished => 7,
    }
}

/// Every step of a run that is not over moves it to a later stage, so a run
/// takes at most seven steps; a run is over exactly when it asks to finish.
pub proof fn lemma_run_progresses(cli: Cli, state: RunState, event: Event)
    ensures
        !(state is Finished) ==> stage(step(cli, state, event).0) > stage(state),
        step(cli, state, event).0 is Finished <==> step(cli, state, event).1 is Finish,
{
}

/// With `--cache-only`, no step calls the API: neither homes nor prices are
/// ever fetched.
pub proof fn lemma_cache_only_never_calls_api(cli: Cli, state: RunState, event: Event)
    requires
        cli.cache_only,
    ensures
        !(step(cli, state, event).1 is FetchHomes),
        !(step(cli, state, event).1 is FetchPrices),
{
}

/// The states that a run that clears the cache passes through.
pub open spec fn clear_cache_state(s: RunState) -> bool {
    s is Start || s is AwaitingCacheDir || s is AwaitingOutput || s is Finished
}

/// Clearing the cache reads and fetches nothing: from its start, such a run
/// stays among the states of `clear_cache_state`, and its only effects are to
/// prepare the cache directory, clear it, and finish.
pub proof fn lemma_clear_cache_only_clears(cli: Cli, state: RunState, event: Event)
    requires
        cli.action == Action::ClearCache,
        clear_cache_state(state),
    ensures
        clear_cache_state(step(cli, state, event).0),
        ({
            let e = step(cli, state, event).1;
            e is PrepareCacheDir || e is ClearCache || e is Finish
        }),
{
}

/// In `Force` mode, once the home is selected, its prices are fetched without
/// reading the price cache (unless only the cache may be read).
pub proof fn lemma_force_fetches(cli: Cli, homes: Vec<Home>, home: Home)
    requires
        cli.action == Action::FetchPrices,
        cli.fetch_mode == FetchMode::Force,
        !cli.cache_only,
        resolve_home_spec(cli.home_id, homes@) == Ok::<Home, ResolveError>(home),
    ensures
        after_homes(cli, homes) == (RunState::AwaitingFetchedPrices { home }, Effect::FetchPrices { home }),
{
}

/// In `Smart` mode, prices are fetched only where nothing is cached or where
/// the cached data has no valid next-day prices and the home's clock shows
/// 14:00 or later; otherwise the cache is reported up to date.
pub proof fn lemma_smart_fetches_only_when_stale(
    cli: Cli,
    home: Home,
    cached: Option<PriceData>,
    now: Timestamp,
)
    requires
        cli.action == Action::FetchPrices,
        cli.fetch_mode == FetchMode::Smart,
    ensures
        after_price_cache(cli, home, cached, now).1 is FetchPrices ==> match cached {
            None => true,
            Some(d) => !d.has_tomorrow_prices_spec(now) && (crate::time::zone_hour_at(home.time_zone@, now)
                matches Some(h) && h >= 14),
        },
        (cached matches Some(d) && !d.should_fetch_spec(home.time_zone@, now)) ==> after_price_cache(
            cli,
            home,
            cached,
            now,
        ).1 == (Effect::ReportCacheUpToDate { home_name: home.name }),
{
}

/// Where the cache holds a price in effect now, showing the current price
/// needs no API call: the cached price is shown.
pub proof fn lemma_cached_price_shown_offline(
    cli: Cli,
    home: Home,
    d: PriceData,
    now: Timestamp,
    output_format: PriceFormat,
)
    requires
        cli.action == (Action::ShowCurrentPrice { output_format }),
        price_at(d.prices@, now) is Some,
    ensures
        (after_price_cache(cli, home, Some(d), now).0 is AwaitingOutput),
        after_price_cache(cli, home, Some(d), now).1 == (Effect::ShowPrice {
            home_name: home.name,
            price_bits: price_at(d.prices@, now),
            currency: d.currency,
            format: output_format,
        }),
{
}


/// A run begins by preparing the cache directory; once it is ready, a run
/// that clears the cache clears it, and every other run reads the homes cache.
pub proof fn lemma_step_start(cli: Cli)
    ensures
        step(cli, RunState::Start, Event::Started) == (RunState::AwaitingCacheDir, Effect::PrepareCacheDir),
        cli.action == Action::ClearCache ==> step(cli, RunState::AwaitingCacheDir, Event::CacheDirReady) == (
            RunState::AwaitingOutput,
            Effect::ClearCache,
        ),
        cli.action != Action::ClearCache ==> step(cli, RunState::AwaitingCacheDir, Event::CacheDirReady) == (
            RunState::AwaitingHomesCache,
            Effect::ReadHomesCache,
        ),
        step(cli, RunState::AwaitingOutput, Event::OutputDone) == (RunState::Finished, (Effect::Finish {
            result: Ok(()),
        })),
{
}

/// Without a homes cache, the homes are fetched, except with `--cache-only`,
/// which ends the run with `NoCachedHomes`.
pub proof fn lemma_step_no_homes_cache(cli: Cli)
    ensures
        !cli.cache_only ==> step(cli, RunState::AwaitingHomesCache, (Event::HomesCacheRead { cached_homes: None }))
            == (RunState::AwaitingFetchedHomes, Effect::FetchHomes),
        cli.cache_only ==> step(cli, RunState::AwaitingHomesCache, (Event::HomesCacheRead { cached_homes: None }))
            == (RunState::Finished, (Effect::Finish { result: Err(RunError::NoCachedHomes) })),
{
}

/// The state and event with which a run learns the homes: read from the
/// homes cache, or fetched from the API.
pub open spec fn homes_known(homes: Vec<Home>, fetched: bool) -> (RunState, Event) {
    if fetched {
        (RunState::AwaitingFetchedHomes, Event::HomesFetched { homes })
    } else {
        (RunState::AwaitingHomesCache, Event::HomesCacheRead { cached_homes: Some(homes) })
    }
}

/// Once the homes are known, `list-homes` lists exactly them. Any other command
/// fails with the resolution error where no home is selected, and otherwise goes
/// on with the selected home: `fetch-prices --fetch-mode force` fetches its
/// prices at once (or, with `--cache-only`, fails with `FetchForbidden`), and
/// `fetch-prices` in smart mode and `show-current-price` read its price cache.
pub proof fn lemma_step_homes_known(cli: Cli, homes: Vec<Home>, fetched: bool, h: Home)
    ensures
        ({
            let r = step(cli, homes_known(homes, fetched).0, homes_known(homes, fetched).1);
            &&& cli.action == Action::ListHomes ==> r == (RunState::AwaitingOutput, (Effect::ListHomes { homes }))
            &&& resolve_home_spec(cli.home_id, homes@) matches Err(e) ==> ((cli.action == Action::FetchPrices
                || cli.action is ShowCurrentPrice) ==> r == (RunState::Finished, (Effect::Finish {
                result: Err(RunError::Resolve(e)),
            })))
            &&& is_selected(cli.home_id, homes@, h) && cli.action == Action::FetchPrices && cli.fetch_mode
                == FetchMode::Force && !cli.cache_only ==> r == ((RunState::AwaitingFetchedPrices { home: h }), (
            Effect::FetchPrices { home: h }))
            &&& is_selected(cli.home_id, homes@, h) && cli.action == Action::FetchPrices && cli.fetch_mode
                == FetchMode::Force && cli.cache_only ==> r == (RunState::Finished, (Effect::Finish {
                result: Err(RunError::FetchForbidden { home_name: h.name }),
            }))
            &&& is_selected(cli.home_id, homes@, h) && ((cli.action == Action::FetchPrices && cli.fetch_mode
                == FetchMode::Smart) || cli.action is ShowCurrentPrice) ==> r == ((RunState::AwaitingPriceCache {
                home: h,
            }), (Effect::ReadPriceCache { home: h }))
        }),
{
    lemma_resolve_home_selects(cli.home_id, homes@);
}

/// After the price cache of `home` is read at `now`, `fetch-prices` fetches
/// where a fetch is due: always in force mode, and in smart mode where nothing
/// is cached or the cached data has no valid next-day prices and the home's
/// clock shows 14:00 or later. A due fetch is refused with `--cache-only`;
/// where none is due, the cache is reported up to date.
pub proof fn lemma_step_fetch_prices_after_cache(cli: Cli, home: Home, cached: Option<PriceData>, now: Timestamp)
    requires
        cli.action == Action::FetchPrices,
    ensures
        ({
            let r = step(cli, (RunState::AwaitingPriceCache { home }), (Event::PriceCacheRead { cached, now }));
            let due = cli.fetch_mode == FetchMode::Force || cached is None || due_after_two_pm(
                cached->0,
                home.time_zone@,
                now,
            );
            &&& due && !cli.cache_only ==> r == ((RunState::AwaitingFetchedPrices { home }), (Effect::FetchPrices {
                home,
            }))
            &&& due && cli.cache_only ==> r == (RunState::Finished, (Effect::Finish {
                result: Err(RunError::FetchForbidden { home_name: home.name }),
            }))
            &&& !due ==> r == (RunState::AwaitingOutput, (Effect::ReportCacheUpToDate { home_name: home.name }))
        }),
{
    if let Some(d) = cached {
        crate::api::lemma_next_day_prices(&d, home.time_zone@, now);
    }
}

/// After the price cache of `home` is read at `now`, `show-current-price`
/// shows the price in effect at `now` with the cached currency where the cache
/// holds one; where it holds none, the prices are fetched, except with
/// `--cache-only`, which shows that there is no current price, or fails with
/// `NoCurrentPrice` where nothing is cached.
pub proof fn lemma_step_show_after_cache(
    cli: Cli,
    home: Home,
    cached: Option<PriceData>,
    now: Timestamp,
    f: PriceFormat,
)
    requires
        cli.action == (Action::ShowCurrentPrice { output_format: f }),
    ensures
        ({
            let r = step(cli, (RunState::AwaitingPriceCache { home }), (Event::PriceCacheRead { cached, now }));
            let priced = cached is Some && has_key_at_or_before(cached->0.prices@, now);
            &&& priced ==> r.0 is AwaitingOutput && (r.1 matches Effect::ShowPrice {
                home_name,
                price_bits,
                currency,
                format,
            } && home_name == home.name && currency == cached->0.currency && format == f && price_bits is Some
                && is_price_in_effect(cached->0.prices@, now, price_bits))
            &&& !priced && !cli.cache_only ==> r == ((RunState::AwaitingFetchedPrices { home }), (
            Effect::FetchPrices { home }))
            &&& !priced && cli.cache_only && cached is Some ==> r == (RunState::AwaitingOutput, (Effect::ShowPrice {
                home_name: home.name,
                price_bits: None,
                currency: cached->0.currency,
                format: f,
            }))
            &&& cached is None && cli.cache_only ==> r == (RunState::Finished, (Effect::Finish {
                result: Err(RunError::NoCurrentPrice { home_name: home.name }),
            }))
        }),
{
    if let Some(d) = cached {
        lemma_table_finite(&d.prices);
        lemma_price_at_in_effect(d.prices@, now);
    }
}

/// Once the prices of `home` are fetched and cached, `fetch-prices` reports
/// them cached, and `show-current-price` shows the fetched price in effect at
/// `now`, the instant the clock showed after the fetch, with the fetched
/// currency.
pub proof fn lemma_step_after_fetch(cli: Cli, home: Home, data: PriceData, now: Timestamp)
    ensures
        ({
            let r = step(cli, (RunState::AwaitingFetchedPrices { home }), (Event::PricesFetched { data, now }));
            &&& cli.action == Action::FetchPrices ==> r == (RunState::AwaitingOutput, (
            Effect::ReportPricesCached { home_name: home.name }))
            &&& cli.action matches Action::ShowCurrentPrice { output_format } ==> r.0 is AwaitingOutput && (
            r.1 matches Effect::ShowPrice { home_name, price_bits, currency, format } && home_name == home.name
                && currency == data.currency && format == output_format && is_price_in_effect(
                data.prices@,
                now,
                price_bits,
            ))
        }),
{
    lemma_table_finite(&data.prices);
    lemma_price_at_in_effect(data.prices@, now);
}

} // verus!
