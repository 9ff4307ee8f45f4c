# netcheck

The verified core of NetCheck, a tray app that tells whether the internet is actually
alive (not just whether Wi-Fi says "connected"), with its contracts proved by Verus.

- `src/net.rs`: the reachability verdict from HTTP endpoint probes and raw TCP fallbacks,
  the per-endpoint probe decisions, the physical-uplink filter, live throughput from
  interface counters, and the speed-test address and rate.
- `src/status.rs`: the status classification (tier, state, colour), the tooltip, the tray
  globe, and the monitor's state between polls (latest status, recent speed test).
- `src/usage.rs`: data usage periods, FILETIME stamps and the tally of usage-ledger entries.
- `src/text.rs`, `src/arith.rs`: character-level text search and formatting, and rounding.
- `app/`: the Tauri program around the library (tray, flyout, HTTP/TCP/OS I/O).

Numbers are integers in fixed units: latency in tenths of a millisecond, rates in tenths
of a megabit per second (or bits per second for raw throughput).
