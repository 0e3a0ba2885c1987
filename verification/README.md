# tibber-cli

A cache-aware command-line client for the energy prices of the Tibber API,
written in Verus.

- `src/` is the verified library:
  - `time.rs`: instants, their order, the hour a time zone's clock shows
    (chrono and chrono-tz give the zone's offset behind one small trusted
    function) and the system clock (std's `SystemTime`, behind another);
  - `price_table.rs`: price points ordered by start instant, with the lookup
    of the price in effect at an instant;
  - `api.rs`: homes and price data as the GraphQL API answers them, turned
    into homes with display names and into price data, and the questions the
    cache is asked (are next-day prices valid, is a fetch due, what is the
    current price);
  - `lib.rs`: the command line as a step function from state and event to the
    next state and effect, and the choice of home.
- `app/main.rs` performs the effects: argument parsing, cache files, HTTP
  calls and printing.
- `tests/` runs the library on concrete values.
