# DbgAtlas

DbgAtlas is an investigation platform for Windows: debugging, reverse
engineering, event recording, and problem analysis that can be repeated. The
data of an investigation stands in an explicit workspace with `artifacts/`,
`analysis/` and, where wanted, `inputs/`.

- `src/` is the library, verified by Verus. It decides and computes: what a
  workspace accepts and records, which native call a request makes and what its
  reply means, what a worker, the MCP server and the command line do next. It
  works on plain values; paths of the host are `path::HostPath`, documents are
  `json::Json`.
- `app/` is ordinary Rust around it: files, pipes, sockets, threads, native
  libraries, and the documents that `serde` reads and writes.
- `tests/` runs the library on concrete values.
