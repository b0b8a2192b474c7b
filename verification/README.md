# coppice-coordinator

The decisions of a coordinator daemon, verified with Verus, and the daemon
around them.

A coordinator is one replica of the control plane: it finds or forms its
cluster, is admitted to it, takes custody of the cluster's signing key, enrolls
machines, answers the operator, and passes clients' writes on to the leader.
What it decides in doing so is in `src/`, as functions from plain values to
plain values with contracts. Where a protocol alternates between deciding and
acting, the decision is a step: it takes what the last action gave and says what
to do next. `app/` performs the actions.

- `src/admin/` — who may call which verb, the membership changes, key custody,
  enrollment tokens, the status document and the operator's client.
- `src/bootstrap/` — what is bound before what, what a data directory makes of
  the daemon, the parked state, and the way down.
- `src/cli/` — the command line.
- `src/clientedge.rs`, `src/clientwrite.rs` — the public listener and the
  forwarding of writes.
- `src/config.rs` — the configuration, its defaults and what is refused.
- `src/convergence/` — from a parked daemon to a voter, and the watch for a
  superseding history.
- `src/discovery/` — candidates from a list, DNS, a directory or an Auto Scaling
  group.
- `src/enroll/` — issuing and renewing leaves.
- `src/formation/` — forming a cluster once, and what is shown of it.
- `src/failpoints.rs`, `src/leadership.rs`, `src/limits.rs`, `src/liveness.rs` —
  failpoints, leader-only tasks, bounds, and the leader's last-seen map.
- `src/cluster.rs`, `src/json.rs`, `src/paths.rs`, `src/seats.rs`,
  `src/status.rs`, `src/text.rs`, `src/time.rs`, `src/clock.rs`, `src/wire.rs` —
  the vocabulary.

The library calls `uuid`, `humantime` (through `humantime-serde`) and
`serde_json`; what it takes for granted of them is stated where it calls them.
`tests/` runs the library with the real crates.
