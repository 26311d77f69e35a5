# dnp3

Parts of a DNP3 stack whose behaviour is stated in contracts and proved with
Verus.

- `src/link`: the link layer. `crc` computes the DNP3 CRC-16, `header` decodes
  the control byte, `parser` reads frames incrementally from a byte cursor,
  and `format` describes the byte layout of a well-formed frame and proves
  what the parser does with it (a frame is read back whole, bytes arriving
  later do not change a step, noise before a frame is skipped, a parser
  never reports an internal error).
- `src/util/cursor.rs`: the byte cursor the parser reads from.
- `src/master`: the master's decisions: the command task (select-before-operate
  or direct operate), the association registry, and the session's handling
  of control messages, response fragments and task failures, as step
  functions for the read, non-read and link status tasks.
- `src/schema/variation.rs`: the `variation` enum of the foreign-function
  bindings, defined through `oo-bindgen`.
- `app/`: the asynchronous loops around a master session (tokio): control
  messages, and the read, command and link status tasks, which hand each
  event to the verified step functions.
