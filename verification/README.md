# rbx_studio_mcp

A verified core for an MCP server that relays tool calls to a Roblox Studio plugin and
searches the Roblox Creator Store.

- `src/` is the Verus library: the relay state (command queue and reply routing),
  tool commands and their ids, query encoding, search planning, ranking of Creator Store
  hits, and the text of the search report. Every function there is verified against its
  contract; the laws (FIFO order, reply routing, stable descending ranking, lossless query
  encoding, result limits) are proof functions next to the code they speak of.
- `app/` is ordinary Rust around it: the rmcp tool handlers, the axum endpoints the plugin
  polls, the HTTP requests to the Toolbox Service, JSON forms of the types, and the
  floating-point relevance score.
- `tests/` runs the library on concrete values.
