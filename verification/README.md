# mihari_logger

A batched log-shipping client: entries are buffered, shipped to an HTTP
ingestion API in batches (gzip-compressed by default), retried with
exponential backoff, and flushed on shutdown.

- `src/` is the verified library (Verus): log levels, entries and their
  metadata map, configuration builders and defaults, the client's entry
  construction, the batching state machine of the background transport with
  its delivery law, the retry schedule with its backoff law, request
  preparation, and the field handling of the `tracing` layer.
- `app/` is the asynchronous shell around it: the tokio task that feeds events
  to the batching state machine, HTTP delivery with reqwest, JSON encoding via
  serde copies of the library's types, and the `tracing_subscriber` layer.
- `tests/` exercises the library on concrete values.
