# nova

The decision layer of a humanoid motion controller, verified with Verus.

- `src/` — the verified library: command intake from the cognitive layer
  (`command`), the control-loop state machine (`control`), joint slots and
  set-points (`joints`), foot contact tracking (`contact`), keyboard drive
  axes (`input`) and raw-state layout (`sensors`). Joint angles and
  velocities are carried as an opaque scalar type; the library routes them
  and never computes with them.
- `app/` — the program around it: gRPC service and simulator client, the DDS
  backend for the Unitree H1, and the floating-point parts (gait generator,
  joint-limit guard, body proportions).
- `tests/` — tests of the library on concrete values.
