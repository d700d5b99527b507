# nub_cook

The decision core of `nub cook <script>`: compile a script ahead of time with
PerryTS, compare the binary with Node, cache it only if both behave alike, and run
the script on Node in every other case.

- `src/` is the library. Every function states what it returns, and Verus proves
  it. A run is a `Session`: it asks one question after the other (`pending`), and
  each answer leads on (`step`) to effects, notes for the user and the next
  question. `src/laws.rs` holds what is true of every run; the other modules hold
  the laws of their own subject.
- `src/outside.rs` holds what is relied on without proof: SHA-256, JSON and UTF-8
  decoding. `src/text.rs` relies on `String::push`.
- `app/` answers the questions on a real machine: files, subprocesses, the cache.
- `tests/` runs the library on concrete values.
