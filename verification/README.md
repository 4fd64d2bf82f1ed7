# ahoy_jump

The jump-cancel decisions of a character controller, with their specifications and proofs.

- `src/jump.rs`: the decisions a jump cancel makes — whether it goes ahead
  (`admit_cancel`), which impulse rule it uses (`choose_impulse`), both at once
  (`plan_cancel`) — with their specifications and the proved laws about them.
- `app/lib.rs`: the controller's jump settings (float values, easing curves
  from `bevy_math`, serde derives) and the float arithmetic of a cancel, which
  call the verified decisions.
- `tests/`: tests of the verified decisions on concrete values.
