# NTE DPS Tool

A damage meter for live captures. The library under `src/` holds its logic:
what engine events do to a session, what the projections show, how requests
are answered, and what the desktop program remembers. Every item is verified
with Verus.

The packet engine, the stored configuration and the message format are crates
of their own. Where the logic calls them, a function of the library takes a
closure, and its contract says what is handed over and what is made of the
answer. Floating-point numbers are carried as their bit patterns
(`double`, `single`); the arithmetic on them is such a closure, too.

## Modules

- `model`, `error`, `text`, `names`, `tally`, `double`, `single`: values.
- `reducer`, `live_capture`, `capture_laws`, `lanes`, `history`, `rounds`: from
  engine events to sessions, rounds and their archive.
- `hud`, `timeline`, `combat_details`, `battle`, `axis_laws`, `detail`,
  `detail_text`, `detail_cache`, `detail_laws`, `detail_pages`, `readout`: projections of a session.
- `line`, `rpc`, `runtime`, `session`, `requests`, `queries`, `session_laws`:
  the line protocol.
- `settings`, `preferences`, `presentation`, `desktop`, `commands`, `notices`,
  `operations`, `updates`, `streams`, `windows`: the desktop program.

`tests/` runs the library. `app/` is ordinary Rust around it: threads,
channels, clocks, floating point and native windows.
