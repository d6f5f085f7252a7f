# picodata

Access control and operations of the replicated log of a distributed database, verified with
[Verus](https://github.com/verus-lang/verus).

- `src/` is the library. Every access check is a pure decision over the answers that an
  instance has given so far; where one is missing, the check says what to ask.
- `app/` is ordinary Rust around it: it asks tarantool, runs the checks to their end, and holds
  the wire forms of operations.
- `tests/` runs the library against a small instance kept in memory.
