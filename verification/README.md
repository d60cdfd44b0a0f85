# rfvp host ABI

Host-side bookkeeping for the RFVP visual-novel engine's versioned C ABI,
written in Verus. The engine runs windowless: it records render commands,
texture work and audio commands, and the host that embeds it presents them.

`src/` is the verified library:

- `handle` — generation-checked `u64` handles and the registry behind them;
  a removed or cleared handle never reaches an object stored later in its
  slot, until that slot's 32-bit generation wraps around.
- `resources`, `host_state` — the resource sets, runtimes and frames a host
  holds by handle, and the rules between them: a runtime hands out one frame
  at a time, the frame stays live until released, unknown handles are refused.
- `runtime` — what a runtime keeps between engine steps: the waiting frame
  (skipped frames keep their texture work), the bounded audio queue, the
  exit flag.
- `renderer`, `recording`, `frame` — texture generations and pixel updates,
  and the conversion of a recorded frame into ABI draw, texture and
  hit-proxy records.
- `audio`, `input` — audio commands into polled records with little-endian
  payloads; ABI input records into engine events.
- `platform` — the game file system's path rules, the clock and the platform
  bundle the engine runs against.
- `text_translation` — exact replacement tables and slot-bound asynchronous
  translation requests.
- `abi`, `host_types`, `unicode` — ABI constants and records, the engine
  vocabulary (floats held as their bit patterns), and `char` helpers.

`app/` holds the `extern "C"` entry points that need no engine core, the
`repr(C)` records with pointers and floats, file-system I/O, logging, and the
float geometry of sprite draws. The entry points that boot, step or feed the
engine are not built here, because the engine core is not part of this
build; their decisions are in `src/`.
