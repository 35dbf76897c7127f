# wiki_stream

Real-time processing of the Wikimedia recent-change stream, with its
decision logic verified in Verus.

- `src/` is the verified library: the per-domain leaderboards and their
  top-3 ranking (`tally`, `leaderboard`), the rolling jitter window
  (`jitter`), the processor's per-edit rules (`processor`), the watchdog's
  per-tick decisions (`watch_policy`) and shared state (`watchdog`),
  the edit type, the `data: ` framing of stream lines, the parse through a
  generic JSON value and the routing of edits (`edit`), report
  statistics (`stats`), clock readings and time stamps (`clock`), and the
  pipeline settings (`config`).
- `app/` is the program around it: the network stream, the zero-copy
  parse (a serde derive on a copy of the library's event type), the tokio
  and thread pipelines with their queues and channels, the counting
  allocator, and the printed reports.
- `tests/` exercises the library on concrete values.

Durations are held in whole microseconds (drifts) and nanoseconds (lock
timings); the reports print them as milliseconds.
