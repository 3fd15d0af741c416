# ferrium

A distributed key-value store replicated with Raft (openraft), whose core is
verified with Verus.

- `src/` is the verified library: configuration and its validation, the
  key-value state machine and its snapshots, the log key encoding and the key
  ranges that log truncation deletes, TLS configuration decisions and PEM
  framing, the URLs and steps of cluster management and leader discovery, the
  client's node bookkeeping and leader choice, the command-line overrides, and
  the answers of the key-value and management services.
- `tests/` runs the library on concrete values.
- `app/` is the server around it: command line, configuration files (TOML),
  logging, RocksDB storage, the HTTP transport of Raft RPCs and the HTTP API.
