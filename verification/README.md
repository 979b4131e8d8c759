# creator_authority

Decisions behind creator-granted homeserver authority on a Lock Server: starting and completing a
connect flow, keeping pending flows, approving and restoring grants, revalidating stored authority
and telling its status.

- `src/` is the library, verified with Verus. Use cases that wait for the outside are written as a
  state and a step function: the state says what to do next, and the step takes the answer. Public
  proof functions named `law_..` state what holds of whole runs.
- `app/` carries the decisions out: the loops, the Postgres store, and the Pubky SDK adapters.
- `tests/` drives the library against stand-ins for the outside and against the real Pubky types.
