# ora_sql_builder

Metadata-driven SQL building, verified with Verus.

- `src/engine`: dialects (MySQL, PostgreSQL, Oracle, SQL Server, SQLite), the
  `SELECT`/`INSERT`/`UPDATE`/`DELETE` builders and the DDL builders. Every builder's
  `build` is specified by the exact text it writes and the parameters it binds.
- `src/sql.rs`: clause-by-clause statement assembly and the `SQLProvider` interface.
- `src/portal_provider`: a provider that answers each clause from portal column
  descriptions; `src/portal_provider_adapter.rs` turns those columns into metadata
  requests.
- `src/metadata`, `src/metadata_plan`, `src/metadata_driver`: metadata requests, the plans
  derived from them, and the driver that builds their SQL.
- `src/metadata_mapping`: the catalog as rows of the standard metadata tables.
- `src/execution`: the dialect of a datasource and the statements each plan runs.
- `app/`: the database side (sqlx pools, async executors) and the JSON forms of values
  and portal columns.

Laws proved about the library stand beside the functions they speak of as public proof
functions (for example `assigned_values_bind_in_column_order`,
`request_binds_same_values_in_every_dialect`, `standard_tables_reference_earlier_tables`,
`catalog_rows_fill_standard_tables`).
