# simplex-core

A client library for Plex Media Servers, verified with Verus, and a small
command-line program around it.

## Layout

- `src/` — the library. Its functions carry `requires`/`ensures` contracts
  that Verus proves, except the few small `external_body` wrappers around
  outside calls (listed below), whose contracts are trusted rather than
  proved. Laws that relate several functions are public `proof fn`s named
  `law_*`.
  - Text and URLs: `text`, `web`, `query`, `deep_links`, `instance`
    (lock file and the messages between instances), `identity`.
  - Configuration and credentials: `config`, `keychain`, `models`,
    `discovery`, `cache`.
  - Library data: `library`, `sort`, `hubs`, `search`, `users`, `playlists`,
    `transcode`, `playback`, `auth`, `api`.
  - Player decisions: `media`, `tracks`, `subtitles`, `player_logic`,
    `player_session` (previous/next, skip buttons, the up-next countdown,
    timeline reports), `player_state`, `mini_player`.
  - Pages as values: `detail`, `library_view`, `settings`, `sidebar`,
    `login`, `display`, `ui`.
- `tests/` — tests of the library.
- `app/` — the command-line program: files, the keychain, HTTP requests,
  the clock, and the floating-point player arithmetic. It asks the library
  for every decision.

Outside calls the library makes (URL parsing, percent-encoding and
-decoding, random bytes, std's case mappings, `String::push` and the clock)
sit behind small `external_body` functions whose contracts say what the
library relies on; Verus takes those contracts on trust. Where a library
function makes such a call, a public verified function beside it takes the
call's result (a parsed URL, random bytes, a clock reading) and does the
rest, so that part is proved for every possible result.
