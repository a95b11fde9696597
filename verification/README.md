# task_services

A small task system made of three programs that talk through PostgreSQL and
Redis streams:

* the **service** stores tasks behind an HTTP API (`POST /tasks`,
  `GET /tasks/:id`, `POST /tasks/:id/complete`) and republishes every row the
  database announces on its `inserts` and `updates` channels to the Redis
  stream of the same name;
* the **executor** reads the `inserts` stream, runs each task on a pool of
  workers and reports it completed to the service;
* the **notifier** reads both streams and answers `GET /notifications?type=…`
  with the tasks created (`non_completed`) or completed since the last poll.

The executor and the notifier remember the id of the last stream entry they
handled, and resume from it after a restart.

## Layout

* `src/` is the verified library (Verus): the walk over stream replies and
  the cursors kept by the readers, the notifier's positions, the service's
  error classification and HTTP statuses, request validation, new task ids,
  the completion address, the Redis connection parameters, the tracing
  filters, the saved-record trimming, and command-line parsing.
  Calls into `clap`, `uuid`, `validator`, `tracing`, `opentelemetry` and
  `serde_json` stand behind trusted items whose contracts are documented
  where they are declared.
* `tests/` runs the library on concrete values.
* `app/` is the runtime around it (Tokio, axum, sqlx, redis, reqwest,
  OpenTelemetry): one binary whose first argument picks the program,
  `task_services executor -p <PATH>`, `task_services service -p <PATH> -a
  <ADDRESS>`, `task_services notifier -p <PATH> -a <ADDRESS>`.
