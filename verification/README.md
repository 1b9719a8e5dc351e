# buttplug

Parts of a Buttplug client and of a device protocol, verified with Verus.

- `src/client`: the cell in which a client waits for a reply, and the decisions of
  the loop between a client and its connector. `relay.rs` states what holds of that
  loop over its whole life.
- `src/device`: vibration commands, what a device was last told, and the protocol of
  Kiiroo's second generation of vibrators. `vibration.rs` states what holds of
  commands one after the other.
- `src/outside.rs`: what is taken on trust of other crates and of the standard
  library.
- `app`: the asynchronous side, which waits, sends and writes.
