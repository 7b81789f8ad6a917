# fog_space

A small task service that runs similar-image searches and streams their
progress to clients as server-sent events.

- `src/` is the verified library (Verus): the errors answered to clients and
  their text, the reading of task ids, the task registry and its cancel
  operation, the request models, the settings a search is configured with,
  and the events of a task's stream.
- `app/` is the server around it: routing, request decoding, threads, the
  search engine itself and serialisation.
- `tests/` exercise the library with the real outside crates linked.

The search engine crate (`czkawka_core`) could not be brought into this
build: with it the dependency tree exceeds the package limit of the build
environment. `app/` calls it as the server does, so `app/` does not
type-check here; the library and its tests do not depend on it.
