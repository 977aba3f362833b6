# r_jellycli

A headless Jellyfin audio client. The library in `src/` holds the client's
logic with Verus contracts and proofs; `app/` is the program around it.

- `src/config.rs`: settings, their defaults, validation and file location.
- `src/startup.rs`: which settings win, where the password comes from, how
  the client authenticates, which item is chosen without asking.
- `src/ui.rs`: command-line arguments, the item table, item selection.
- `src/jellyfin/`: the API client (requests and response judgement), login,
  the session's capabilities, the WebSocket URL and listener decisions, the
  translation of remote commands, report bodies and data models.
- `src/player/`: the player's queue and playback state machine, item
  ordering, and the reporting task's decisions.
- `src/audio/`: sample conversion and interleaving, the in-memory stream,
  the decoder's and the playback loops' decisions, chunked device writes.
- `app/`: `main`, HTTP, WebSocket, decoding and sound output, JSON shapes.

The tests under `tests/` exercise the library.
