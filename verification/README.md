# workbetter

The core logic of Work Better, an Obsidian-centred observer of everyday
work: events are classified, extracted into work records, reviewed and
persisted; tasks are discovered, confirmed, tracked and synchronised;
periodic reports are generated; scheduled jobs are planned, retried and
logged.

- `src/` is the library, written in Verus: every function carries a
  contract, and the laws that hold across calls are stated as proof
  functions beside the code they speak of.
  - `scheduler/`: dependency graph, execution log, resource gate, cron
    evaluation and the scheduler's registry and tick planning.
  - `processor/`: events, classification, extraction, due dates, review
    rules and the review agent, SLA, persistence decisions, the pipeline's
    state machine, task management and discovery, and the reports.
  - `text.rs`, `store.rs`, `clock.rs`: string helpers with their
    specifications, a keyed store, and the values taken from the clock and
    from `chrono`, `uuid` and `std`.
- `app/` is the runtime around the library: the asynchronous scheduler loop,
  the event pipeline driver that performs the model calls and vault I/O the
  library asks for, and JSON reading.
- `tests/` runs the library on concrete values.
