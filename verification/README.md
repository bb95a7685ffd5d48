# cv-writer-mcp

An MCP server that turns a structured CV profile into a PDF through a LuaLaTeX
template. The protocol logic, the LaTeX escaping, the profile model and the
decisions of a compile run are verified with Verus; the I/O around them is not.

- `src/` — the verified library
  - `json.rs`: the JSON value model that the protocol logic reads and builds
  - `mcp.rs`: JSON-RPC and MCP message types and their JSON form
  - `schema.rs`: the CV profile types and the sample profile
  - `template.rs`: LaTeX escaping and the `latex_escape` template filter, with its laws
  - `compiler.rs`: compiler settings and errors, the outcome of one `lualatex` pass,
    and the compile run as a state machine
  - `server.rs`: request dispatch, the tool list, tool calls, the `render_cv` run as a
    state machine, and the handling of input lines
  - `lookup.rs`: finding an executable on the `PATH`, recorded with the name looked up
  - `decimal.rs`: decimal text of integers
- `app/` — the executable: stdio, serde/schemars/thiserror forms of the types, Tera,
  the temporary directory and the `lualatex` processes
- `tests/` — tests of the library

The Tera template is read at run time from `templates/star_rover.tex.tera`.
