# transactional_outbox

A delivery service built on the transactional outbox pattern: a delivery and the
outbox message that announces it are written in one database transaction.

- `src/` is the library, verified with Verus: the delivery model and its status life
  cycle (`postgres/model`), the rows stored and read back (`postgres/repository`), the
  settings (`config`), the HTTP answers (`controller`), and the service, including the
  step-by-step course of creating a delivery (`service`).
- `app/` is the program around it: settings loading, the Postgres pool and statements,
  migrations, and the HTTP routes.
- `tests/` runs the library on concrete values.
