# axvisor_control

The decisions of the Axvisor control plane, written in Verus: what a pool of
guest configs holds, what a build of the hypervisor serves, what the VM manager
does next, and what the host-side probe demands of the management API. Every
executable function carries a contract, and the laws that hold across functions
are public proof functions.

Nothing in `src/` performs input or output. Where a decision needs the
filesystem, the network or a clock, a small state machine names the one thing it
needs next (`action`), and is told the answer. `app/` runs these machines.

## Layout

- `src/text.rs`, `src/order.rs`, `src/report.rs`: strings, sorting, log lines and
  errors with their contexts.
- `src/guest.rs`: guest configurations, read through `axvmconfig`.
- `src/control/domain/`: the pool of guest configs. `pool` holds the results of a
  scan, `scan` and `browse` produce them, `save` writes new configs, `startup`
  reports the pool; `scan_laws` and `browse_laws` say what a whole scan finds.
- `src/vm_pool.rs`, `src/vm_pool_laws.rs`: the pool as a single directory.
- `src/control/capability/`: the routes and resources of a build.
- `src/http/`: the manifest, the dashboard assets, the listener address.
- `src/manager.rs`, `src/bringup.rs`: the policy of the VM manager, and how the
  default VM set is brought up.
- `src/probe/`: the probe of the management API. `json` reads bodies through
  `serde_json`, `checks` judges single replies, `http_probe` is the script of the
  probe, `runner` runs it, `host_probe` waits for the guest and quits QEMU.
- `src/io_mpx.rs`: the order of the I/O multiplexing suites.
- `app/`: the filesystem, the HTTP server and client, threads, and the VM runtime.

## What is taken on trust

The functions marked `external_body` in `src/guest.rs` and `src/probe/json.rs`
call `axvmconfig` and `serde_json`. Their doc comments say what is taken from
those crates.
