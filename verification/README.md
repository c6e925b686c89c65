# starter

A small event-sourced feed application: users post feeds, the feed list and
the tag counters are read models kept from the feed events, and the pages
load the list a page at a time.

- `src/` is the library, written in Verus: event names, the feed aggregate,
  the creation command and its validation, the read-model projections and
  their cursors, what the pages show, configuration defaults and language
  choice. Each public function states its behaviour in `requires` /
  `ensures`, and the properties that span functions are proof functions.
  Calls into `uuid`, `ulid`, `fake`, `rand`, `validator`, `mime_guess`,
  `harsh` and `chrono` go through small trusted wrappers whose contracts
  are documented beside them.
- `app/` is the program around it: the command line, configuration files,
  the Postgres store, the evento subscribers, the axum routes and the HTML.
- `tests/` runs the library on concrete values.
