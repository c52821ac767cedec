# catdex

A verified library for a family of small cat-themed services, with the
programs around it.

- `src/` is the library, checked by Verus:
  - `heartbeat` — the websocket ping/pong watchdog as a state machine over the
    timer handles a connection holds, with its invariants proved;
  - `models` — cats, new cats from an upload form, the index page;
  - `errors` — request errors, their status codes and JSON bodies;
  - `chat` — the console line and the relayed JSON of a chat message;
  - `greeting` — the serverless greeters;
  - `catalog` — the reply of the serverless cat listing;
  - `scaffold` — names and messages of the project scaffolding tool;
  - `text` — decimal rendering of integers;
  - `json` — the calls into `serde_json` and what they are trusted to do.
- `app/` holds the servers, functions and tool themselves: sockets, HTTP,
  databases, the clock and the command line.
- `tests/` exercises the library on concrete values.
