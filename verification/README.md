# youtrack_mcp

A Model Context Protocol server for YouTrack whose logic is verified with
Verus.

- `src/` is the verified library: configuration, request planning for every
  tool, response checking, name/id resolution, the write flows (issue,
  link, work item) as state machines, board and sprint resolution, the
  work-time report, base64 and the JSON handling. Each public function
  states what it returns in its contract; the laws (every write ends,
  issue writes never touch the tags API, stripping `$type` is idempotent,
  the report's rows are exactly the work days, ...) are public proof
  functions.
- `app/` is the program around it: reading the environment, performing
  HTTP with `reqwest`, the lookup caches, running the flows, and speaking
  MCP with `rmcp`.
- `tests/` runs the library on concrete values.

Environment variables: `YOUTRACK_URL` and `YOUTRACK_TOKEN` (required),
`YOUTRACK_DEFAULT_PROJECT`, `YOUTRACK_TIMEZONE` (default `Europe/Moscow`),
`YOUTRACK_HOLIDAYS`, `YOUTRACK_PRE_HOLIDAYS`, `YOUTRACK_USER_ALIASES`,
`YOUTRACK_DOWNLOAD_DIR`.
