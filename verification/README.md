# stitch

The verified core of a newline-delimited JSON-RPC bridge between a host
process and a sidecar child process that talk over the child's stdin and
stdout.

- `src/` is the library, verified with Verus: the model of JSON values
  (`json`), decimal text (`text`), error and response records (`wire`), the
  table of waiting calls (`pending`), the reader's decisions on each line of
  the sidecar's output (`reader`), the lines of the protocol and the
  sidecar's handling of a request (`protocol`), call ids and what a response
  means to a caller (`client`), the supervised bridge (`supervisor`), and the
  properties that tie both sides together (`laws`).
- `app/` holds what stays outside the proofs: processes, pipes, threads and
  Tokio tasks, channels, JSON text through `serde_json`, the ctrl-c handler
  and the sidecar's stdin loop.
- `tests/` runs the library on concrete values.
