# repair_shop

Seed data and API shaping for the database of a device-repair shop, verified with Verus.

- `src/database/tables`: the tables (vendors, tickets, bundled parts and the tables they
  refer to), each with a generator of seed rows. Generated identifiers are unique and
  not negative; generated keys of junction tables are new; references point at rows that
  exist.
- `src/database/views`: the records that the database's views return.
- `src/api/views`: the column descriptions and formats sent with each view, and the tickets
  view as the API sends it.
- `src/derives.rs`: what the API's derive macros accept and how a field's
  `#[col_format(...)]` attribute describes its column.
- `src/generators.rs`, `src/random.rs`: the generators of seed values, and the one source
  of chance (`rand`).
- `app/`: JSON copies of the API types (serde), SQL binding with sqlx, and the token
  generation of the derive macros (syn, quote).
