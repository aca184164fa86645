# rust_client

A QUIC/HTTP3 benchmark client. It downloads a fixed set of files from a test
server over QUIC (via `quiche`), either timing each download per congestion
control algorithm or sampling the throughput of repeated downloads.

- `src/` is the verified library: request construction (`request`,
  `decimal`, `text`), hex rendering (`hex`), qlog naming (`qlog`), the
  per-connection request state machine and its laws (`session`), the
  decisions of the read, write and HTTP/3 loops (`driver`), the download
  plans (`plan`), measurement bookkeeping and its laws (`measure`), client
  settings (`config`) and connection IDs (`conn_id`).
- `app/` is the program: sockets and the event loop (`mio`), the QUIC engine
  (`quiche`), the clock, floating-point reporting and the result files.
- `tests/` exercises the library on concrete values.
