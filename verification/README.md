# zeroclaw

The logic of the ZeroClaw agent's gateway, chat channels, Buddy companion and
terminal dashboard, written in Verus: the functions in `src/` carry
contracts, and Verus proves the code against them; the few calls into std
and outside crates sit behind trusted wrappers whose contracts are stated
from their documentation.

- `src/gateway/`: rate limiting and idempotency keys (with their laws), client
  addresses, the OpenAI-compatible chat completion rules (routing, streaming
  in word groups, error bodies), webhook secrets and signatures, replies of the
  dashboard endpoints.
- `src/channels/`: the Zed editor protocol (requests, Zed commands, the
  streaming buffer that never splits a command), SiYuan notes, terminal
  feedback lines, message keys.
- `src/buddy/`: emotions, situations, blockers, personality, conversation
  rules and the patterns found in logged conversations.
- `src/tui/`: the dashboard's state, what each event does to it, the request
  cache, the connection pool, dirty flags, and the text of each panel.
- `src/text.rs`, `src/json.rs`, `src/clock.rs`: strings, JSON text, and the
  trusted calls for time and ids.

`app/` holds the program around the library: command-line dispatch, the Buddy
command loop, the ACP loop on standard input and output, conversation log
files, and the figures kept in floating point.

`tests/` runs the library on concrete values.
