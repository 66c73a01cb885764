# agentenv

The decisions of a sandbox node, as a Verus library: how sandboxes are created, paused, resumed,
forked, captured and deleted, how paused sandboxes are kept on disk and found again, and how their
disks are branched. What the functions of the library promise is proved by Verus, on top of what a
few small functions take for granted about other crates; the guarantees that span functions stand
beside them as public proof functions.

The library does no I/O. An operation that alternates between outside work and decisions is a
machine: it names its next step, and is told what came of it.

- `src/orchestrator/` holds the lifecycle of sandboxes: one module for each operation (`create`,
  `launch`, `pause`, `resume`, `capture`, `fork`, `running`, `delete`, `shutdown`), the keys under
  which creates are retried (`create_idempotency`, `startup`, `restore`), lists and reports (`listing`, `metrics`) and the
  routes to running sandboxes (`proxy`).
- `src/orchestrator/persistence/` holds the store of paused sandboxes: records and their written
  forms, publication, reconciliation after a crash, quarantine, deletion, and retention.
- `src/sandbox/` holds checkpoints: their capacity, what they refer to, and booting from their
  disks alone.
- `src/api/` holds the answers to requests.
- `src/disk_branch.rs` and `src/object_store.rs` hold disk branches and access to object stores.
- `src/paths.rs`, `src/path_order.rs`, `src/text.rs`, `src/digest.rs`, `src/ids.rs` and
  `src/json.rs` are what the rest is built on. The calls into other crates stand there, in
  `src/object_store.rs` and in `src/api/auth.rs`, each behind a small function whose comment says
  what is taken for granted about the call.
- `app/` does the I/O: the file-backed store, the asynchronous driver of the operations, the HTTP
  server, and a recovery tool for the administrator of a host.
- `tests/` runs the library on concrete values.
