# keyboard_system_status

Keyboard System Status over BLE: which nodes a keyboard consists of, how charged
their batteries are, and which layers are active. The library is written in
Verus; its functions carry contracts that Verus proves.

- `src/state/layer.rs`: layer snapshots, their publication, and the wakeup of
  the observer.
- `src/state/battery.rs`: battery status and its wakeup.
- `src/node.rs`: nodes, roles, battery sources, and the checked configuration.
- `src/status.rs`: the values of System Info, Node Status and Layer Status, and
  the installed configuration.
- `src/server.rs`: initial values, and the decisions of the task that notifies a
  connected host.
- `src/laws.rs`: properties that relate several functions.
- `src/bits.rs`: bitmaps.
- `src/fixed_vec.rs`, `src/signal.rs`: the boundary to `heapless` and
  `embassy-sync`. What is stated there of the two crates is trusted, not proved.

`app/` holds the firmware side: shared state, the GATT service and the async
tasks. `tests/` runs the library with the real crates.
