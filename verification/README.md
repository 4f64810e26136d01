# codex_events

Rules for a proxy in front of a Codex backend, written and proved in Verus.

- `failure` tells what failure an event reports, which status a client sees and whether another
  attempt is worth it.
- `stream` tells what each event of a stream means for the answer that is passed on; `reasoning`
  puts together what the events say of a reasoning item.
- `quota` reads rate-limit snapshots, and `clock` the points in time that they name.
- `sse` splits a body into its events, and `outcome` draws the conclusion from all of them.
- `egress` builds the probe for the egress address, reads its answer and decides what to do next;
  `web` holds the operations on URLs.
- `json` and `text` are the values that all of them read.
- `laws` states what holds of the rules as a whole.

`app/` is the ordinary Rust around the library: the network, the clock of the refresh loop and the
monitor.
