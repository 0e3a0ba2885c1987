//! Tibber homes and energy price data: the values the GraphQL API answers
//! with, shaped into homes and a price table, and the questions asked of the
//! cached price data.

use vstd::prelude::*;
use vstd::string::StringExecFns;

use crate::price_table::{
    is_price_in_effect, lemma_price_at_in_effect, lemma_table_finite, points_map, price_at, PricePoint,
    PriceTable,
};
use crate::time::{current_time, hour_in_zone, ts_le, zone_hour_at, zone_offset_at, Timestamp};

verus! {

/// Unique identifier for a Tibber home.
#[derive(Debug, PartialEq, Eq)]
pub struct HomeId(pub String);

impl View for HomeId {
    type V = Seq<char>;

    open spec fn view(&self) -> Seq<char> {
        self.0@
    }
}

impl Clone for HomeId {
    fn clone(&self) -> (r: Self)
        ensures
            r == *self,
    {
        HomeId(self.0.clone())
    }
}

impl HomeId {
    /// The identifier as text, as it is displayed.
    pub fn as_str(&self) -> (r: &str)
        ensures
            r@ == self@,
    {
        self.0.as_str()
    }
}

impl std::str::FromStr for HomeId {
    type Err = std::convert::Infallible;

    fn from_str(s: &str) -> (r: Result<Self, Self::Err>)
        ensures
            r matches Ok(id) && id@ == s@,
    {
        Ok(HomeId(s.to_owned()))
    }
}

/// A Tibber home with its resolved display name and time zone.
#[derive(Debug, PartialEq)]
pub struct Home {
    /// Unique identifier for the home.
    pub id: HomeId,
    /// Display name (from app nickname, address, or fallback).
    pub name: String,
    /// IANA name of the home's time zone (e.g. `Europe/Amsterdam`).
    pub time_zone: String,
}

impl Clone for Home {
    fn clone(&self) -> (r: Self)
        ensures
            r == *self,
    {
        Home { id: self.id.clone(), name: self.name.clone(), time_zone: self.time_zone.clone() }
    }
}

/// What went wrong in an answer of the API.
#[derive(Debug, Clone, Copy, PartialEq, Eq, Structural)]
pub enum ApiError {
    /// The account has no homes.
    NoHomes,
    /// The requested home is not in the answer.
    HomeNotFound,
    /// The home has no subscription or the subscription no price info.
    NoPriceInfo,
    /// The price info holds no price for today.
    NoTodayPrices,
}

impl ApiError {
    /// The message that describes the error.
    pub fn message(&self) -> (r: String)
        ensures
            r@ == match *self {
                ApiError::NoHomes => "no homes found"@,
                ApiError::HomeNotFound => "home not found"@,
                ApiError::NoPriceInfo => "no price info found (active subscription?)"@,
                ApiError::NoTodayPrices => "no today prices returned from API"@,
            },
    {
        match self {
            ApiError::NoHomes => String::from_str("no homes found"),
            ApiError::HomeNotFound => String::from_str("home not found"),
            ApiError::NoPriceInfo => String::from_str("no price info found (active subscription?)"),
            ApiError::NoTodayPrices => String::from_str("no today prices returned from API"),
        }
    }
}

/// The address of a home as the API gives it.
pub struct Address {
    pub address1: Option<String>,
}

/// A home as the API gives it, before its display name is resolved.
pub struct RawHome {
    pub id: HomeId,
    /// IANA name of the home's time zone.
    pub time_zone: String,
    pub app_nickname: Option<String>,
    pub address: Option<Address>,
}

/// The text of `s` where `s` holds a non-empty string.
pub open spec fn non_empty(s: Option<String>) -> Option<Seq<char>> {
    match s {
        Some(t) => if t@.len() > 0 {
            Some(t@)
        } else {
            None
        },
        None => None,
    }
}

/// The first line of the address, where there is an address and it has one.
pub open spec fn address_line(a: Option<Address>) -> Option<String> {
    match a {
        Some(addr) => addr.address1,
        None => None,
    }
}

/// The display name of a home: its app nickname where that is non-empty, else
/// the first line of its address where that is non-empty, else `Tibber Home`.
pub open spec fn display_name(raw: RawHome) -> Seq<char> {
    match non_empty(raw.app_nickname) {
        Some(n) => n,
        None => match non_empty(address_line(raw.address)) {
            Some(a) => a,
            None => "Tibber Home"@,
        },
    }
}

/// A copy of the text of `s` where it is non-empty.
fn copy_non_empty(s: &Option<String>) -> (r: Option<String>)
    ensures
        match r {
            Some(t) => non_empty(*s) == Some(t@),
            None => non_empty(*s) is None,
        },
{
    match s {
        Some(t) => if t.as_str().is_empty() {
            None
        } else {
            Some(t.clone())
        },
        None => None,
    }
}

/// The display name of a home, resolved as `display_name` says.
pub fn resolve_display_name(raw: &RawHome) -> (name: String)
    ensures
        name@ == display_name(*raw),
        raw.app_nickname is Some && raw.app_nickname->0@.len() > 0 ==> name@ == raw.app_nickname->0@,
        !(raw.app_nickname is Some && raw.app_nickname->0@.len() > 0) && raw.address is Some
            && raw.address->0.address1 is Some && raw.address->0.address1->0@.len() > 0 ==> name@
            == raw.address->0.address1->0@,
        !(raw.app_nickname is Some && raw.app_nickname->0@.len() > 0) && !(raw.address is Some
            && raw.address->0.address1 is Some && raw.address->0.address1->0@.len() > 0) ==> name@
            == "Tibber Home"@,
{
    match copy_non_empty(&raw.app_nickname) {
        Some(n) => n,
        None => {
            let line: Option<String> = match &raw.address {
                Some(addr) => copy_non_empty(&addr.address1),
                None => None,
            };
            match line {
                Some(a) => a,
                None => String::from_str("Tibber Home"),
            }
        },
    }
}

/// A home is named by its app nickname where that is non-empty, else by the
/// first line of its address where that is non-empty, else `Tibber Home`; the
/// name is taken whole.
pub proof fn lemma_display_name(raw: RawHome)
    ensures
        raw.app_nickname is Some && raw.app_nickname->0@.len() > 0 ==> display_name(raw)
            == raw.app_nickname->0@,
        !(raw.app_nickname is Some && raw.app_nickname->0@.len() > 0) && raw.address is Some
            && raw.address->0.address1 is Some && raw.address->0.address1->0@.len() > 0 ==> display_name(
            raw,
        ) == raw.address->0.address1->0@,
        !(raw.app_nickname is Some && raw.app_nickname->0@.len() > 0) && !(raw.address is Some
            && raw.address->0.address1 is Some && raw.address->0.address1->0@.len() > 0)
            ==> display_name(raw) == "Tibber Home"@,
{
}

/// The home that the API describes by `raw`.
pub open spec fn home_of(raw: RawHome, home: Home) -> bool {
    &&& home.id == raw.id
    &&& home.name@ == display_name(raw)
    &&& home.time_zone == raw.time_zone
}

/// Turns the homes of an API answer into homes with resolved display names,
/// in the same order; an answer without homes is an error.
pub fn homes_from_viewer(raw: Vec<RawHome>) -> (r: Result<Vec<Home>, ApiError>)
    ensures
        raw@.len() == 0 <==> r == Err::<Vec<Home>, ApiError>(ApiError::NoHomes),
        r is Err ==> raw@.len() == 0,
        r matches Ok(homes) ==> homes@.len() == raw@.len() && forall|i: int|
            0 <= i < raw@.len() ==> home_of(#[trigger] raw@[i], homes@[i]),
{
    if raw.len() == 0 {
        return Err(ApiError::NoHomes);
    }
    let mut homes: Vec<Home> = Vec::new();
    let mut i: usize = 0;
    while i < raw.len()
        invariant
            i <= raw@.len(),
            homes@.len() == i,
            forall|j: int| 0 <= j < i ==> home_of(#[trigger] raw@[j], homes@[j]),
        decreases raw@.len() - i,
    {
        let r = &raw[i];
        let home = Home { id: r.id.clone(), name: resolve_display_name(r), time_zone: r.time_zone.clone() };
        homes.push(home);
        i = i + 1;
    }
    Ok(homes)
}

/// Price data of a home: the prices by the instant at which they start, and
/// what is known of how current they are.
pub struct PriceData {
    /// Mapping of `startsAt` instant to the bit pattern of the price total.
    pub prices: PriceTable,
    /// Currency code (e.g. `"SEK"`, `"NOK"`), if available.
    pub currency: Option<String>,
    /// The last `startsAt` instant of the API's first-day ("today") list.
    /// After this point, the fetched data is considered stale.
    pub stale_after: Timestamp,
    /// Whether the API response included a non-empty next-day price list.
    pub includes_next_day: bool,
}

/// The hour of the day from which the next day's prices are usually out.
pub const NEXT_DAY_PRICES_HOUR: u32 = 14;

/// New price data is due at `now` for a home in the zone named `home_tz`:
/// the data holds no next-day prices, or `now` is past `stale_after`, and the
/// zone's clock shows 14:00 or later.
pub open spec fn due_after_two_pm(data: PriceData, home_tz: Seq<char>, now: Timestamp) -> bool {
    &&& !(data.includes_next_day && ts_le(now, data.stale_after))
    &&& zone_offset_at(home_tz, now.secs) matches Some(off) && ((now.secs + off) % 86400) / 3600 >= 14
}

impl PriceData {
    /// The data holds next-day prices and `now` is not past `stale_after`.
    pub open spec fn has_tomorrow_prices_spec(&self, now: Timestamp) -> bool {
        self.includes_next_day && ts_le(now, self.stale_after)
    }

    /// New data is due at `now` for a home whose clock shows `local_hour`:
    /// there are no valid next-day prices and the hour is known and is 14 or
    /// later.
    pub open spec fn fetch_due_at_hour(&self, now: Timestamp, local_hour: Option<int>) -> bool {
        !self.has_tomorrow_prices_spec(now) && match local_hour {
            Some(h) => h >= 14,
            None => false,
        }
    }

    /// New data is due at `now` for a home in the zone named `home_tz`.
    pub open spec fn should_fetch_spec(&self, home_tz: Seq<char>, now: Timestamp) -> bool {
        self.fetch_due_at_hour(now, zone_hour_at(home_tz, now))
    }

    /// Returns `true` if the price data contains valid next-day entries at
    /// the current time of the system clock.
    pub fn has_tomorrow_prices(&self) -> (r: bool)
        ensures
            exists|now: Timestamp| now.nanos < 1_000_000_000 && r == self.has_tomorrow_prices_spec(now),
            r ==> self.includes_next_day,
    {
        let now = current_time();
        self.has_tomorrow_prices_at(now)
    }

    /// Returns `true` if the price data contains valid next-day entries at
    /// `now`: the API returned next-day prices and `now` has not passed
    /// `stale_after`.
    pub fn has_tomorrow_prices_at(&self, now: Timestamp) -> (r: bool)
        ensures
            r == self.has_tomorrow_prices_spec(now),
            r == (self.includes_next_day && ts_le(now, self.stale_after)),
    {
        self.includes_next_day && now.is_at_or_before(&self.stale_after)
    }

    /// Returns `true` if new price data should be fetched at the current time
    /// of the system clock, for a home in the zone named `home_tz`.
    pub fn should_fetch_new_price_data(&self, home_tz: &str) -> (r: bool)
        ensures
            exists|now: Timestamp| now.nanos < 1_000_000_000 && r == self.should_fetch_spec(home_tz@, now),
            exists|now: Timestamp| now.nanos < 1_000_000_000 && r == due_after_two_pm(*self, home_tz@, now),
    {
        let now = current_time();
        self.should_fetch_new_price_data_at(home_tz, now)
    }

    /// Returns `true` if new price data should be fetched at `now` for a home
    /// in the zone named `home_tz`: tomorrow's prices are missing and the home's
    /// clock shows 14:00 or later.
    pub fn should_fetch_new_price_data_at(&self, home_tz: &str, now: Timestamp) -> (r: bool)
        ensures
            r == self.should_fetch_spec(home_tz@, now),
            r == due_after_two_pm(*self, home_tz@, now),
    {
        let hour = hour_in_zone(home_tz, now);
        self.should_fetch_at_local_hour(now, hour)
    }

    /// Returns `true` if new price data should be fetched at `now` for a home
    /// whose clock shows `local_hour` (`None` where that is unknown).
    pub fn should_fetch_at_local_hour(&self, now: Timestamp, local_hour: Option<u32>) -> (r: bool)
        ensures
            r == self.fetch_due_at_hour(
                now,
                match local_hour {
                    Some(h) => Some(h as int),
                    None => None,
                },
            ),
            r == (!(self.includes_next_day && ts_le(now, self.stale_after)) && local_hour is Some
                && local_hour->0 >= 14),
    {
        if self.has_tomorrow_prices_at(now) {
            false
        } else {
            match local_hour {
                Some(h) => h >= NEXT_DAY_PRICES_HOUR,
                None => false,
            }
        }
    }

    /// Returns the price for the current time slot of the system clock, if
    /// available.
    pub fn current_price(&self) -> (r: Option<u64>)
        ensures
            exists|now: Timestamp| now.nanos < 1_000_000_000 && r == price_at(self.prices@, now),
            exists|now: Timestamp| now.nanos < 1_000_000_000 && is_price_in_effect(self.prices@, now, r),
    {
        let now = current_time();
        self.current_price_at(now)
    }

    /// Returns the price in effect at `now`: that of the last entry whose
    /// `startsAt` is at or before `now`.
    pub fn current_price_at(&self, now: Timestamp) -> (r: Option<u64>)
        ensures
            r == price_at(self.prices@, now),
            is_price_in_effect(self.prices@, now, r),
    {
        proof {
            lemma_table_finite(&self.prices);
            lemma_price_at_in_effect(self.prices@, now);
        }
        self.prices.price_at(now)
    }
}

/// Next-day prices are valid at `now` exactly where the API returned some and
/// `now` is not past `stale_after`; new data is due exactly where they are not
/// valid and the home's clock shows 14:00 or later.
pub proof fn lemma_next_day_prices(data: &PriceData, home_tz: Seq<char>, now: Timestamp)
    ensures
        data.has_tomorrow_prices_spec(now) <==> (data.includes_next_day && ts_le(now, data.stale_after)),
        data.should_fetch_spec(home_tz, now) <==> due_after_two_pm(*data, home_tz, now),
{
}

/// Next-day prices that are no longer valid at some instant are not valid at
/// any later instant either.
pub proof fn lemma_stale_stays_stale(data: &PriceData, t1: Timestamp, t2: Timestamp)
    requires
        ts_le(t1, t2),
        !data.has_tomorrow_prices_spec(t1),
    ensures
        !data.has_tomorrow_prices_spec(t2),
{
}

/// New data is due only where there are no valid next-day prices and the
/// home's clock shows 14:00 or later.
pub proof fn lemma_fetch_due_only_after_two_pm(data: &PriceData, home_tz: Seq<char>, now: Timestamp)
    requires
        data.should_fetch_spec(home_tz, now),
    ensures
        !data.has_tomorrow_prices_spec(now),
        zone_hour_at(home_tz, now) matches Some(h) && 14 <= h < 24,
{
    if let Some(off) = crate::time::zone_offset_at(home_tz, now.secs) {
        crate::time::lemma_hour_of_day_range(now.secs as int, off as int);
    }
}

/// The price info of the current subscription, as the API gives it.
pub struct CurrentPrice {
    pub currency: Option<String>,
}

/// Today's and tomorrow's price points, and the current price's currency.
pub struct PriceInfo {
    pub current: Option<CurrentPrice>,
    pub today: Vec<PricePoint>,
    pub tomorrow: Vec<PricePoint>,
}

/// A subscription as the API gives it.
pub struct Subscription {
    pub price_info: Option<PriceInfo>,
}

/// A home as the API gives it when prices are asked for.
pub struct HomeNode {
    pub current_subscription: Option<Subscription>,
}

/// The price info of a home, where the home has a subscription with one.
pub open spec fn info_of(home: HomeNode) -> Option<PriceInfo> {
    match home.current_subscription {
        Some(s) => s.price_info,
        None => None,
    }
}

/// The currency of the current price, where the info names one.
pub open spec fn currency_of(info: PriceInfo) -> Option<String> {
    match info.current {
        Some(c) => c.currency,
        None => None,
    }
}

/// `t` is the latest start instant among `points`.
pub open spec fn is_latest_start(points: Seq<PricePoint>, t: Timestamp) -> bool {
    &&& exists|i: int| 0 <= i < points.len() && points[i].starts_at == t
    &&& forall|i: int| 0 <= i < points.len() ==> ts_le(#[trigger] points[i].starts_at, t)
}

/// The price data that an answer's price info gives: the prices of today and
/// tomorrow in one table, stale after the latest of today's instants.
pub open spec fn price_data_of(info: PriceInfo, data: PriceData) -> bool {
    &&& data.currency == currency_of(info)
    &&& is_latest_start(info.today@, data.stale_after)
    &&& data.includes_next_day == (info.tomorrow@.len() > 0)
    &&& data.prices@ == points_map(info.today@ + info.tomorrow@)
}

/// The latest start instant among the non-empty `points`.
fn latest_start(points: &Vec<PricePoint>) -> (t: Timestamp)
    requires
        points@.len() > 0,
    ensures
        is_latest_start(points@, t),
{
    let mut latest = points[0].starts_at;
    let mut at: usize = 0;
    let mut i: usize = 1;
    while i < points.len()
        invariant
            1 <= i <= points@.len(),
            at < i,
            points@[at as int].starts_at == latest,
            forall|j: int| 0 <= j < i ==> ts_le(#[trigger] points@[j].starts_at, latest),
        decreases points@.len() - i,
    {
        if latest.is_at_or_before(&points[i].starts_at) {
            latest = points[i].starts_at;
            at = i;
        }
        i = i + 1;
    }
    latest
}

/// A table of the points of `points`, inserted in order.
fn table_of(points: &Vec<PricePoint>) -> (table: PriceTable)
    ensures
        table@ == points_map(points@),
{
    let mut table = PriceTable::new();
    let mut i: usize = 0;
    while i < points.len()
        invariant
            i <= points@.len(),
            table@ == points_map(points@.take(i as int)),
        decreases points@.len() - i,
    {
        let p = points[i];
        table.insert(p.starts_at, p.total_bits);
        assert(points@.take(i + 1).drop_last() =~= points@.take(i as int));
        i = i + 1;
    }
    assert(points@.take(points@.len() as int) =~= points@);
    table
}

/// Turns the answer to a prices query into price data: today's and
/// tomorrow's points merged into one table keyed by their start instant.
pub fn price_data_from_viewer(home: Option<HomeNode>) -> (r: Result<PriceData, ApiError>)
    ensures
        home is None <==> r == Err::<PriceData, ApiError>(ApiError::HomeNotFound),
        (home matches Some(h) && info_of(h) is None) <==> r == Err::<PriceData, ApiError>(
            ApiError::NoPriceInfo,
        ),
        (home matches Some(h) && info_of(h) matches Some(info) && info.today@.len() == 0) <==> r
            == Err::<PriceData, ApiError>(ApiError::NoTodayPrices),
        r is Ok <==> (home matches Some(h) && info_of(h) matches Some(info) && info.today@.len() > 0),
        r matches Ok(data) ==> (home matches Some(h) && info_of(h) matches Some(info)
            && price_data_of(info, data)),
{
    let home = match home {
        Some(h) => h,
        None => return Err(ApiError::HomeNotFound),
    };
    let info = match home.current_subscription {
        Some(s) => match s.price_info {
            Some(info) => info,
            None => return Err(ApiError::NoPriceInfo),
        },
        None => return Err(ApiError::NoPriceInfo),
    };
    let ghost whole = info;
    let PriceInfo { current, today, tomorrow } = info;
    let currency = match current {
        Some(c) => c.currency,
        None => None,
    };
    if today.len() == 0 {
        return Err(ApiError::NoTodayPrices);
    }
    let stale_after = latest_start(&today);
    let includes_next_day = tomorrow.len() > 0;
    let mut all = today;
    let mut rest = tomorrow;
    all.append(&mut rest);
    let prices = table_of(&all);
    let data = PriceData { prices, currency, stale_after, includes_next_day };
    assert(all@ == whole.today@ + whole.tomorrow@);
    Ok(data)
}

} // verus!
