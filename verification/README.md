# wiredtiger_rs

Connections, sessions and cursors on a WiredTiger database.

The library (`src/`) is verified with Verus. It decides what to ask of the engine and
what to make of the engine's answers; every operation is a pair of functions, one that
builds the call (`engine::Call`) and one that reads the reply (`engine::Reply`).

- `src/error.rs`: the error type and how engine return codes become errors.
- `src/text.rs`: C strings (NUL checks and their error messages), table URIs and the
  configuration strings handed to the engine.
- `src/engine.rs`: the calls, the replies, and the rule that a call succeeded exactly
  when it returned 0.
- `src/raw.rs`: handles one step above the C API, including the cursor's record of a
  key and a value being set before an insert.
- `src/lib.rs`: the connection, session and cursor most callers use, and `Put`, which
  stores a record by setting its key, its value, and inserting it.
- `src/version.rs`: the engine version spoken to.

`app/` performs the calls through WiredTiger's C API and offers the same operations
as plain methods (`Connection::open(path)`, `Cursor::put(key, value)`, ...).
