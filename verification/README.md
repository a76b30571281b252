# rt_bench

A benchmark of asynchronous runtimes (Compio, Monoio, Tokio): an echo
server and a ping-pong client measure network round trips, then a file
benchmark measures sequential writes, sequential reads, random reads and
write-then-read operations.

- `src/` is the verified library: latency statistics (`stats`), the
  metrics of each phase (`metrics`), the file benchmark as a state machine
  (`file_bench`) and the echo server and ping-pong client (`network`).
- `app/` drives the runtimes: sockets, files, timing, threads and printing.
- `tests/` exercises the library on concrete values.
