# btl

Builder Trace Lab: an `eth_sendBundle` endpoint feeds mock bundle jobs into a
simulation queue whose backpressure policy is the variable under study
(unbounded, bounded with waiting, bounded with rejection); a worker
"simulates" each job and a writer stores the result in PostgreSQL, with
Prometheus metrics along the way.

- `src/` is the verified library: configuration from the environment, the
  JSON-RPC request checks and answers, bundle hashing and block-number
  parsing, admission accounting, the pipeline's timing arithmetic and the
  metric catalogue. Contracts and laws are proved by Verus.
- `app/` is the service around it: the HTTP server, the async channels and
  tasks, PostgreSQL and the Prometheus registry.
- `tests/` exercises the library on concrete values.
