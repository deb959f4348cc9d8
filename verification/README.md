# buzz_relay

The decisions behind a community relay's admission control and its workflow
store, verified with Verus.

- `src/admission.rs`: the websocket budget, and the verdict on a principal once
  the shared counter has answered.
- `src/audit.rs`, `src/json.rs`, `src/channel.rs`: the audit entry of a quota
  rejection, its way into the bounded audit channel, and what is reported when it
  is lost.
- `src/audit_laws.rs`: what holds of several rejections on one channel: each is
  attempted once, and is either queued or reported.
- `src/deletion.rs`, `src/statement.rs`: deleting a workflow together with its
  definition, as a value that names the next database action and takes its
  outcome.
- `src/store.rs`, `src/deletion_laws.rs`: a model of the two tables, and what
  holds of every deletion on it: atomicity, stale deletions being no-ops,
  success where nothing fails, replays, repeats, and what stays untouched.
- `src/shared_laws.rs`: what holds of a deletion while other transactions work on
  the same tables, and what the replacement lock is good for.
- `src/timestamp.rs`, `src/workflow_id.rs`, `src/identity.rs`: instants, workflow
  ids, and who a request comes from.

`app/` is the ordinary Rust around it: the Postgres driver, the asynchronous
counter, metrics and logs. It takes the replacement lock's key function as an
argument, because definition saves compute the same key.
