# jb_api

The request logic of the JB catalogue service (brands, classes, types,
clients, products, budgets, users, images and database dumps), written in
Verus and proved against its contracts.

- `src/` is the verified library. Each endpoint's decisions stand there as
  functions from what the database, the disk or an outside call returned to
  the answer to give or the next step to take: uniqueness checks, the
  gathering of a product's details, listings, spreadsheet layouts, the Typst
  source of a budget, password checks and resets, uploads and dumps.
  `rust_decimal` (decimal arithmetic and formatting) and `argon2` (password
  hashing) are called from the library through trusted wrappers whose
  contracts state what their sources show.
- `tests/` runs the library on concrete values.
- `app/` is the Actix Web server around it: routes, SeaORM queries, file and
  network I/O, spreadsheet and PDF writing, and e-mail.
