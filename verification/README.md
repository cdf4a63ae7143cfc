# kix

The rules of a knowledge indexer with project management: work items,
issues and projects, Kanban and epic boards, knowledge links, search
filters, stored pages and job items, GitHub token scopes, issue sync
states, server-sent event policies, SQL migration scripts and the data
explorer's query planning.

## Layout

- `src/` — the library, written in Verus.  Every function carries a
  contract over mathematical views of the records (`Seq`, `Map`, `int`),
  and the laws that tie several functions together are proof functions
  named `law_*`.
  - `work_item`, `issue`, `project`, `entry`, `page`, `job`, `token`,
    `sync`: the stored records and what changes them.
  - `board`, `epic`: the board by item type and the board by epic, with
    the laws that each item is shown at most once.
  - `work_item_service`, `issue_service`, `project_service`, `knowledge`,
    `retrieval`, `indexing`, `github`, `services`: the decisions of the
    services (listings, updates, paging, reordering, GitHub pushes).
  - `search`, `explorer`, `migrations`, `vectors`, `sse`: query building,
    query planning, script splitting, embedding sizes, connection limits.
  - `text`, `json`, `ids`: strings, JSON arrays of strings and JSON
    values, identifiers and timestamps;
    the few calls into `std`, `serde_json`, `uuid`, `chrono` and `sha2`
    whose behaviour is assumed are marked `#[verifier::external_body]`.
- `tests/` — tests of the library on concrete values.
- `app/` — what cannot be verified: SQLite storage through `sqlx`, the
  services that join storage to the library, the issue, token and
  knowledge flows that reach GitHub and the embedding store (each behind a
  trait that the server implements), the explorer's file and database
  access, server-sent events through `axum`, and the records and scores
  that hold floating-point numbers.
