# ferrosonic

The core of a terminal client for Subsonic-compatible music servers, verified
with Verus.

- `src/` is the verified library: page and list state (selection movement,
  song and album filtering, paging of server lists, theme cycling), key routing
  and the hotkey menu, footer hints, the Browse page's click handling, queue
  restoration, duration and sample-rate text, and the reading of server replies.
  `src/laws.rs` states properties that span several operations.
- `app/` is the unverified shell around it: the HTTP client, JSON decoding,
  queue files on disk, terminal key conversion and drawing.
- `tests/` exercises the library on concrete values.
