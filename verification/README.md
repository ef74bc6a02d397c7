# libcanopen-client

A CANopen master/client library. The protocol logic is written in Verus and
its contracts are proved:

- `src/canopen/message.rs`, `le.rs`: CAN identifiers, COB-ID classification,
  little-endian field access.
- `src/canopen/nmt.rs`: NMT states and commands, heartbeat tracking and the
  heartbeat timeout decision.
- `src/canopen/sdo.rs`: SDO request frames, the per-transfer state machine of
  expedited and segmented transfers, and the table of active transfers with
  their timeouts.
- `src/canopen/lss.rs`: LSS frames, response decoding and inquiry collection.
- `src/canopen/emcy.rs`, `sync.rs`, `pdo.rs`: emergency decoding, the SYNC
  counter and its reception callback, PDO payload tracking.
- `src/canopen/od.rs`, `types.rs`: object-dictionary types and the wire
  encoding of Rust values.
- `src/canopen/builders.rs`, `events.rs`: frame builders and message routing.
- `src/hardware/`: bus speeds and the PEAK CAN frame layout.

`app/` holds the asynchronous runtime around it (tokio tasks and channels,
the PCAN-Basic driver calls, user callbacks, `Display` and serde forms).
