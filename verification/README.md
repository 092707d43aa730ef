# vesting

A token vesting program: a company locks tokens in a treasury, and each
employee claims them linearly between a start and an end time, once a cliff
has passed.

- `src/` is the verified library: the account records (`state.rs`), the
  errors (`error.rs`), the three instructions and the vesting arithmetic
  (`program.rs`), the clock read (`clock.rs`), and the properties that hold
  over runs of claims (`laws.rs`).
- `app/` is the Anchor program around it: account validation, PDA seeds,
  the token transfer, and the serialized copies of the records.
- `tests/` runs the library on concrete schedules.
