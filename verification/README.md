# record-syncd

Synchronized video recording over an ethernet ad hoc network. One leader tells
all nodes when to start and stop; followers measure their clocks against the
leader's by exchanging timestamps.

- `src/` is the library: what a node knows and decides, verified with Verus.
  - `sync`: clock offset, round-trip times, scheduling
  - `network`: the messages and the node that sends them
  - `orchestrator`: the reaction to received messages
  - `tasks`: the messages that a node repeats, the pace of receiving
  - `recorder`, `pipeline`: when a recording starts and how it ends
  - `console`, `text`: what the user types
  - `clock`: the system clock, the one part of the library that rests on
    trusted contracts (`SystemTime::now`, `SystemTime::duration_since`,
    `Duration::as_micros`)
  - `name_map`, `arith`: a map keyed by names, integer facts
  - `laws`: what holds of the library as a whole
- `tests/` runs the library.
- `app/` is the program: sockets, JSON, timers, the terminal and GStreamer.

## Time

Timestamps are microseconds since the Unix epoch. A follower sends a request at
`t1`, the leader receives it at `t2` and answers at `t3`, the follower receives
the answer at `t4`. The offset of that exchange is `((t2 - t1) + (t3 - t4)) / 2`
and its round-trip time `(t4 - t1) - (t3 - t2)`. While the known offset is 0 a
measured offset is taken as it is; otherwise it counts for a fifth against what
was known. Network time is local time plus offset, so that it reads as the
leader's clock.
