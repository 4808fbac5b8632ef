# trading_core

Market-structure analysis of OHLC candles, verified with Verus.

- `src/` is the verified library. Prices are fixed-point integers (ticks),
  volumes unsigned integers, instants UTC milliseconds since the epoch.
  - `domain::entities`: candles (alignment on a timerange, direction),
    symbols, timeranges, the three trading sessions of a day, structures,
    trends and the data the analysis produces.
  - `domain::series`: the per-series stores (`dashmap::DashMap`) keyed by
    symbol and timerange, and their empty start.
  - `application`: aggregation of candles per timerange, fair value gaps on
    candle bodies, sessions, and trend detection (breaks of structure,
    changes of character, order blocks) with the replay of queued candles;
    trend processing is stated on the candles on which it is defined, and a
    function tells which those are.
  - `handlers`: the same analysis reporting structures by their full names,
    fair value gaps on wicks, sessions with inclusive bounds, and a replay
    of a series' queue, each candle on its own series, whose termination
    is proved; trend processing returns the actions to
    perform in order (publishing, setting the trend state, cutting the
    queue), so that a failed send leaves the state as it stood there.
  - `connections`: the per-symbol buffers waiting for the database, and the
    claims of the tokens to request.
  - `utils`: UTC day arithmetic, time-of-day windows, random websocket keys.
- `app/` is the service around it: channels, websocket and HTTP clients,
  reading recorded candles, and the serialisable copies of the records.
- `tests/` exercise the library on concrete values.
