# log_saver

The verified core of a JSON log collector. Clients write JSON entries into
named indexes (one table each); administrators search them, and scheduled
reports write chosen fields of recent entries to CSV files.

- `src/` is the library, verified with Verus: access rules and the token check
  (`schemes`, `auth`), report rendering (`report`, over the `json` model and
  the `text` operations), the SQL statements run on an index's table (`sql`,
  built with sea_query), the decisions of the HTTP, gRPC and background
  handlers (`admin`, `rpc`, `handlers`, `event`, `error`, `rest`), the
  settings with their defaults (`credentials`), and JSON highlighting (`utils`).
- `app/` is the server around it: actix-web routes, the sea-orm database
  access, the event bus and the report and re-index tasks. The gRPC services
  are not served: their tonic code is generated from protocol files that this
  tree lacks, so `log_saver::rpc` holds their decisions without a server.
  The database migrations are not run, for the same reason.
- `tests/` runs the library on concrete values.
