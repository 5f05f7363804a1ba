# vixen_engine

The decisions of a small browser engine, as a library that Verus verifies.

- `src/` is the library. `browser` holds the contexts, navigations, histories
  and event queues of a browser; the other modules parse and judge CSS values:
  colours, angles, shadows, border images, clip paths, calculations, blend
  modes, animation timing and box sizing.
- `tests/` runs the library on concrete values.
- `app/` is what surrounds it: floating point arithmetic, threads, files, and
  error types with messages.

A parser states in its contract which value or which error every text has. The
browser is a value that each operation maps to the next; what the host has to
do comes back as a request, and what the host reports comes in as an argument.
Numbers are kept as they are written, with the exact value that they stand for;
turning them into floats is left to `app/`. The channels of a colour are those
that double-precision arithmetic gives; `src/color/double.rs` carries it out on
whole numbers. A calculation comes to a formula, and `app/` works it out.

The URL grammar belongs to the `url` crate and the escaping of strings to
`serde_json`; `src/weburl.rs` says what is taken from them.
