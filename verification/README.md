# stash-mcp

An MCP server that lets AI assistants query a [Stash](https://github.com/stashapp/stash)
media library: 7 tools, 6 resources, 5 resource templates and 4 prompts, over stdio.

## Layout

- `src/` — the library, verified with Verus. It holds the logic of the server:
  env-format configuration parsing, the command line, GraphQL request bodies and
  the reading of answers, the filter builders, tool-argument handling, the tool,
  resource and prompt catalogs, resource routing, the statistics the tools and
  resources report, and the answer to a client's pre-handshake discovery probe.
  Every public function states what it returns in its contract; the properties
  the library keeps across calls are proved as `law_*` proof functions.
- `app/` — the program around it: stdio transport and the MCP session, HTTP to
  the Stash server, reading files and the environment, and rendering reports as
  JSON.
- `tests/` — tests of the library on concrete values.
