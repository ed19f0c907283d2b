# neug_rust

Rust bindings for the NeuG graph database, whose engine runs in a separate
worker process. The decisions on both ends of the pipe are verified with Verus.

- `src/` — the verified library:
  - `protocol` — the request and response messages;
  - `connection`, `database` — the client's handles: what each operation asks
    of the worker, and what the worker's reply means;
  - `worker` — the client's numbering of requests and the routing of
    responses, in any order, back to the waiting request;
  - `sidecar` — the worker's registry of open databases and connections and its
    answer to each request;
  - `properties` — laws that follow a request from the client through the
    worker and back.
- `app/` — the `neug-worker` program and the process plumbing: spawning the worker, the pipes and their
  bincode encoding, the user-facing `Database` and `Connection` handles, and
  the worker's loop over the engine's C interface.
- `tests/` — the scenarios, run against an in-process worker.
