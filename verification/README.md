# multi_cursor_core

Account switching for Cursor and the Cursor Agent CLI, with its logic proved
in Verus.

- `src/` is the verified library: the configuration model (`config`), account
  snapshots (`snapshot`), the account operations (`accounts`), what a sync
  writes into the Agent CLI stores (`agent_auth`, `keychain` for macOS,
  `auth_file` for Linux, `unsupported` elsewhere), the readers of command
  output (`cursor`, `about`), string helpers (`text`), the `serde_json`
  boundary (`json`) and the properties that span operations (`laws`).
- `app/` is the `multi-cursor-cli` program: argument parsing, files,
  external commands and the serialized forms of the library's types.
- `tests/` runs the library on concrete values.
