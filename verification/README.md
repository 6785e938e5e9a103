# runtime

The verified core of an in-database function runtime (a Redis module that
runs extension computations on behalf of clients).

- `src/task.rs`: task states and a task's run cycle (resume decision,
  recorded outcome, time accounting).
- `src/ext.rs`: the built-in extension computation as a resumable state
  machine.
- `src/executor.rs`: the executor's protocol for one request.
- `src/policy.rs`: the key-value commands a policy issues and how a reply is
  read back.
- `src/server.rs`: the answer the invocation service sends.
- `src/resp.rs`: RESP values and random test payloads.
- `src/lib.rs`: properties that span these modules.

`app/` holds the parts that talk to Redis, threads and channels.
