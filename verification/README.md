# nocelium

A Nostr-native AI agent runtime: events from chat channels and scheduled
tasks are routed by dispatch rules to agent turns or built-in handlers, and
messages are recorded in the Nomen collective memory as kind 30100 events.

## Layout

- `src/` — the library, verified with Verus. Each module states its
  behaviour in `requires`/`ensures` contracts over spec functions:
  - `dispatch` — glob matching of dispatch keys and first-match routing,
    with the laws of the pattern language as proof functions;
  - `event`, `outbound` — inbound events, their dispatch keys, and
    outbound messages;
  - `collected` — the tags and content of collected-message events;
  - `agent` — what the agent loop does with each event, the texts it
    answers commands with, log entries, and the history bound;
  - `cron` — schedule parsing, choosing and firing due tasks;
  - `handlers`, `memory`, `tools`, `config`, `logging` — the store handler,
    the memory service's vocabulary, tool texts, configuration defaults and
    paths, dispatch-log previews;
  - `text`, `numbers` — string and integer helpers with their own specs.
- `tests/` — tests of the library on concrete values.
- `app/` — the program around the library: command line, configuration
  file, identity keys, channels, the memory client, the model and its
  tools, and the loops that perform the I/O the library decides on.

## Trusted items

The library trusts, without proof, the contracts of a few calls into other
crates: the date-time and cron parsers (whose results are named by
uninterpreted spec functions), the system clock and a cron schedule's next
upcoming time (of which nothing is claimed), and `String::push`.
