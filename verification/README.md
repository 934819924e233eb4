# aptos_toolkit

Verified logic around Aptos transactions, written in Verus:

- `grpc_response_dispatcher`, `dispatch_run`: the stream of transactions to a
  client, as a state machine that names the outside work to do; `stream_laws`
  states what the client can rely on.
- `diff`: the differences between two outputs of one replayed transaction;
  `diff_laws` states what is reported, and `gas_laws` what is left out where the
  gas may differ.
- `args`, `entry_points`: the transaction types of a workload and their mix,
  phase by phase; `args_laws`.
- `workflow_delegator`, `workflow_creator`: workflows of several stages, and how
  they are set up; `workflow_laws`.
- `config`, `status_page`, `html`: the data service, and the status page that is
  built with `build_html`.
- `randomness`: checks of a distributed key generation.
- `batch`, `bytes`, `ordered_keys`, `rpc_status`, `text`: what the others need.

`app/` performs what the library decides: it reads storages, sends to channels,
sleeps, runs the server, and carries the types with derives of other crates.
