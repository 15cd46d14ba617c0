# everything_ipc

A client for the IPC interface of voidtools' Everything, with its protocol
logic verified by Verus.

- `src/` is the verified library: the byte layout of query requests
  (`EVERYTHING_IPC_QUERY2`) and replies (`EVERYTHING_IPC_LIST2` and its
  items), search and request flags, sort orders, the naming of IPC windows,
  PE version decoding, path normalisation, and the folder-size lookup with
  its per-parent cache, written as a state machine whose steps take the
  outcome of system calls as events.
- `app/` performs the Windows calls around it: finding windows, the hidden
  reply window and its message loop, synchronous and Tokio queries, disk
  queries and path canonicalisation, and drives the folder-size state machine.
- `tests/` exercises the library on concrete requests, replies and simulated
  systems.
