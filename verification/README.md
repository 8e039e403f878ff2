# async_local

References to thread-local data that can be held across await points, made
sound by a shutdown barrier at which the runtime's worker threads rendezvous
before their thread-local data is destroyed.

- `src/` is the verified library (Verus): the `Context` wrapper and branded
  `LocalRef`s, the shutdown barrier state machine, the runtime builder and the
  decisions its thread hooks make, the checks behind deriving `AsContext`, and
  the bookkeeping of the doomsday-clock shutdown test.
- `app/` is ordinary Rust around it: thread-locals, mutexes and condition
  variables, the Tokio hooks, the `syn`/`quote` side of the derive, and the two
  shutdown test programs.
- `tests/` exercises the library on concrete values.
