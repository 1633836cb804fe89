# caligula

The verified core of a disk imaging tool. `src/` is a Verus library; `app/`
is the plain Rust around it (terminal, log files, processes, threads).

Library modules:

- `coredump`: reading the kernel's `core_pattern` and the advice shown for it.
- `logging`, `styled`: where the log goes, and the reports shown when the
  program dies, as lines of styled text.
- `framing`: the length-framed byte stream between parent and daemon, with
  the proof that a receiver reads back what a sender wrote.
- `junction`, `time`: per-transfer statistics and their snapshots.
- `io_graph`, `hashing`: buffers and workers of the I/O graph; SHA-256 over a
  stream of chunks.
- `writer`: buffer sizing and the steps of a write and its verification.
- `escalation`, `daemon_error`, `herder`, `disks`, `bench`, `workflow`:
  decisions and data of the surrounding machinery.
- `text`: character-level helpers (trimming, substring search).
