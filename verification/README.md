# kagi_mcp

An MCP server over stdio that wraps the `kagi` command-line client: every
tool call becomes one `kagi` subprocess, whose output is handed back as TOON
text, JSON or plain text.

The library under `src/` is verified with Verus:

- `args` — the parameters of every tool;
- `argv`, `lines`, `text` — argument lists, stdin text, and text helpers
  (decimal rendering and parsing, white space, line joining);
- `command` — the invocation type and how a requested format selects the way
  output is read;
- `privacy` — the unpersonalized and stealth presets;
- `search`, `tools`, `account` — one builder per tool, each with a contract
  that gives the exact argument list, stdin and output mode;
- `runner` — the runner's configuration from its environment variables and
  every decision it takes around a subprocess (profile, pacing, jitter,
  spawn retries, failure messages, reading the output); a request that asks
  for stealth mode is jittered and paced even when the runner's own stealth
  setting is off;
- `json` — the `serde_json` and `toon` calls on CLI output;
- `laws` — properties that span several functions.

`app/` holds the server itself: the MCP tool router (`rmcp`), parameter
deserialization, and the asynchronous subprocess handling (`tokio`).
