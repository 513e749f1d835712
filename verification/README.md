# claude_core

The core of a conversational assistant client: messages and their roles,
server-sent-event decoding, the answers, balances and streams of the model
providers, context building and compaction, a per-minute rate limiter, key
stores and the stored form of settings, sessions and messages.

- `src/` is the library, written and proved with Verus. Each public function
  states its result in its contract; the properties that span several
  functions are the `law_*` proof functions.
- The key store and the key bindings keep their entries in `StringTable`, a
  table with unique keys whose contract is a `Map`, in place of a
  `HashMap<String, String>`: with `String` keys, vstd's specification of
  `HashMap` does not let a lookup after an insert be proved.
- `tests/` runs the library on concrete values.
- `app/` is the runtime around it: HTTP providers, the SQLite store, session
  files, the asynchronous engines and the C and JNI interfaces.
