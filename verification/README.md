# tidal_engine

Offline tide prediction by the harmonic method (NOAA Special Publication
No. 98), with its station-side logic verified in Verus.

- `src/` — the verified library:
  - `text`: Unicode whitespace, trimming, `lines`, whitespace tokens,
    ASCII case-insensitive comparison, each specified over `Seq<char>`;
  - `numeral`: the decimal grammar that `f64::from_str` accepts;
  - `data`: `parse_station`, the station text format, with an exact
    specification of the station (or the first error) a text gives, and
    the law that blank and comment lines change nothing;
  - `station`, `constituent`: station records, numbers kept as numerals;
  - `species`: the constituent species table and its case-insensitive
    lookup;
  - `locator`: the nearest station, by distances compared in the IEEE 754
    total order;
  - `scan`, `extremum`, `predictor`: the search for high and low tides as
    a state machine fed with the sign of the rate of change, proved to
    record exactly the specified events, in chronological order, each at a
    turn of the water level.
- `app/` — the floating-point harmonic arithmetic (astronomical elements,
  nodal corrections, the constituent sum, haversine distance) and the
  UniFFI surface for Swift/Kotlin.
- `tests/` — tests of the library.
