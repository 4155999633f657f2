# hotswap

Swapping code in a running program with [subsecond](https://docs.rs/subsecond), in programs that are
not built on Dioxus: a page with one thread, a page whose web workers render an image in parallel,
and a web server.

- `src/` is the library: what the programs decide and compute, with contracts that Verus proves. It
  reads patches and the messages of the development server, plans how every thread links a patch and
  when it may be committed, and manages web workers: their channels, their states and the way of a
  message.
- `app/` is the programs: what talks to the browser, the network and other threads.
- `tests/` runs the library.

Two things are taken on trust, each in one small function: what `leb128` reads, and that what
`serde_json` makes of a message depends on its text (and the size of a pointer) alone. Of the locks
of the standard library nothing is assumed.

## Locks

The main thread of a page may not block. `web_mutex` tells which threads may wait for a lock and
tries locks for those that may not.

## Workers

`ThreadId(0)` is the main thread, `ThreadId(1..=n)` are the workers. Any two workers share a message
channel; the main thread and a worker post to each other directly; a thread reaches itself through
its microtask queue.
