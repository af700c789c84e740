# codex

A verified core for driving the Codex CLI. The library in `src/` is written in Verus: its
functions carry `requires`/`ensures` contracts that Verus proves (a few small helpers state
nothing beyond their types), and the properties that
tie several functions together are stated as proof functions named `law_*`.

- `text`, `order`, `json`, `path`: character-sequence helpers, key ordering, a plain JSON
  model, and paths compared by component.
- `version`, `advisory`: version-output parsing, release channels and update advisories.
- `capabilities`, `features`, `probe`, `cache`: capability snapshots, feature detection, the
  probe state machine and the per-binary snapshot cache.
- `client`, `auth`, `home`, `overrides`, `cli`: client configuration and the argument vectors
  of every subcommand; login/logout output interpretation; `CODEX_HOME` layout.
- `jsonl`, `events`: normalization of `--json` event lines.
- `mcp_config`, `mcp_runtime`: MCP server tables, bearer tokens, launchers and runtimes.
- `app_runtime`: app-server runtimes by name and the pool that reuses running ones.
- `jsonrpc`: request ids, decoding of server lines, response outcomes, `codex/event` and
  app-server notifications, and the table of pending requests.

`app/` holds the process, file and environment plumbing (tokio, serde, toml) that calls the
library; `tests/` exercises the library from outside.
