# squire

Squire is an idiomatic interface to SQLite. This crate holds the parts of
Squire that decide things, each with a contract that Verus proves:

- `error`: SQLite's result codes and the ones Squire adds, their categories,
  specific reasons, names and descriptions, and the `Error` type built from
  them (with its message, SQL location and integration error).
- `version`: versions of the SQLite library packed into a non-zero `u32`,
  with parsing, printing and the `SQLITE_VERSION_NUMBER` notation.
- `database`, `endpoint`, `connection`: which database to open, and the
  `sqlite3_open_v2` flags a `ConnectionBuilder` computes.
- `statement`: `PrepareOptions`, the parameters and columns a statement
  declares, and the outcome of preparing, stepping and running statements
  given the result codes SQLite returns.
- `bind`, `blob`, `types`: values bound as parameters, zero-filled blob
  reservations, row ids and parameter and column indexes.

`app/` holds the SQLite side: the C interface, connections and statements
that call it, and the serde and `Display` forms of the library's values.
