# norx_passwd

Password administration for Norx, verified with Verus.

- `src/engine.rs`: the engine. It tells changes from resets, hands each attempt
  with its policy to the account database, keeps a bounded audit trail that never
  holds a secret, and reports failures by their class.
- `src/error.rs`, `src/policy.rs`: the failures and their classes, the length
  bounds of a password.
- `src/output.rs`: writing a whole message through an output that takes it piece
  by piece.
- `src/smoke/`: the smoke run. Deterministic fixtures, a storage in memory, the
  scenario, the world that its actions are performed in, and the run through it.
- `app/`: a program that makes the smoke run on `norx_userdb`, the account
  database. The library itself needs no other crate: it takes the calls into the
  database as arguments.

A production image injects a reviewed Argon2id hasher and verifier; the fixtures
are for the smoke run only.
