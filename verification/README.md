# aism

Verified core of a small web front end for a storage-system AI assistant.

- `src/` (Verus): the state of each screen and what every user action does
  to it — trimming and sending questions, attaching a log file, composing the
  backend request and the prompt, fine-tuning submissions, the side menu, and
  the bounded CPU-load history — together with the entries that are logged.
- `app/` (plain Rust, Leptos): rendering, HTTP calls, Elasticsearch logging,
  timers, and the floating-point statistics of the status screen.
- `tests/`: executable tests of the library.
