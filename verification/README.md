# dev_panels

Verified logic of two editor panels:

- a **Docker panel** that lists containers, images and volumes (from
  `docker … --format '{{json .}}'`), folds its sections, and starts, stops,
  restarts, removes and follows the logs of containers;
- a **SQL API explorer** for hosts that answer SQL over HTTP
  (`POST {host}/api/v1/dev/query-sql` with `{"sql": …}`): a list of saved hosts
  with their authentication (bearer token, custom header, basic), a tree of
  schemas and tables loaded on demand, a paged view of a table's rows with a
  filter and an ordering, the table's DDL, and an export of the rows to an
  interactive HTML page.

Layout:

- `src/` — the library, verified with Verus:
  - `text.rs` — trimming, decimal and hexadecimal rendering, decimal parsing;
  - `keyed.rs` — the keyed sets and lists that hold the explorer's tree;
  - `models.rs` — hosts and their authentication;
  - `json.rs` — what the panels read of JSON answers, and cell texts;
  - `sql.rs` — the SQL texts, the HTTP request of a query, the reading of
    answer bodies (through `serde_json`), and what answers give;
  - `html.rs` — HTML escaping, colour codes, the export page and its file name;
  - `explorer.rs` — the explorer's state and its transitions;
  - `table_view.rs` — a table tab's state (paging, filters, rows) and the DDL tab;
  - `docker.rs` — the Docker panel's state, command arguments and output lines.
- `tests/` — tests of the library.
- `app/` — the editor integration (elements, actions, process, HTTP and file
  I/O, serde copies of the records).
