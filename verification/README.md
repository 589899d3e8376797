# bracket_stats

The read side of a tournament statistics site (players, sets, standings),
written in Verus.

- `src/` is the verified library: the SQL text of each query (`queries`),
  decimal text of ids and its reading back (`decimal`), the decoding of SQLite
  result rows into records (`cells`, `rows`, `decode`, `records`), the queries
  run against a connection (`store`), and the decisions of the web pages
  (`pages`). `sqlite` holds the trusted calls into `rusqlite` and std, and the verified
  reading of rows and columns that records, in ghost fields, which SQL text,
  row and column each value came from.
- `app/` is the actix-web server around it: the connection pool, the
  asynchronous handlers, template rendering and logging.
- `tests/` runs the library, partly against an in-memory SQLite database.
