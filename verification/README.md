# rong_core

The core of Rong, a JavaScript runtime for Rust with one API over several
JavaScript engines, written in Verus.

- `src/` is the library, verified by Verus: the engine interface (`engine`),
  values, objects, arrays, array buffers, typed arrays, errors and the thrown
  value store, function call admission and parameter rules, promises, the iterator
  protocol, sources
  and bytecode files, the invoke queue of the scheduler, and the decisions of
  the worker pools (`rong`, `shared`, `pinned`) and of the network service
  (`net`).
- `app/` is ordinary Rust around it: the worker threads and their async
  loops, the pools' channels, the HTTP client and the downloads. It calls the
  library for every decision it makes.
- `tests/` holds the tests, among them an in-memory engine that drives the
  engine-generic code.
