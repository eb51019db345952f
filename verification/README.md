# Task service

A microservice for hierarchical tasks.  Its rules are a Verus library: every
function states what it returns, and Verus proves it.

- `src/` is the library.
  - `domain`, `tree`: tasks, their status, errors, events, subtrees.
  - `service`: the operations, as states that say what to ask of the table or
    the bus, and `resume` with the reply.
  - `repository`: the SQL statements with their parameters, and what the rows
    that come back mean.
  - `handlers`: requests and replies of the HTTP interface.
  - `infrastructure::nats`: messages out, and what to do with messages in.
  - `config`: the settings and their defaults.
  - `headers`, `identifier`, `json`, `text`, `validation`: the calls into other
    crates, each with the contract that is taken on trust.
  - `table`, `laws`: a model of the tasks table, and what holds of the service
    as a whole.
- `tests/` runs the library on concrete values.
- `app/` is the program around it: the HTTP server, PostgreSQL, NATS, traces.

## Rules

- A task is read, changed and deleted by its owner only: `X-User-Id` must match.
- A parent belongs to the user of its child; no task ends up below itself.
- A deletion only marks a task; `user.deleted` marks all tasks of a user.
- `timer.stopped` adds its whole minutes to `spent_mins`, or nothing where they
  are more than that column holds.
- Creations, updates and deletions are announced; that an announcement fails
  changes no result.
