# consult_portal

The verified core of a clinic web portal: visitors send consultations to
doctors and join requests, members register and sign in, administrators read
consultations, join forms and the files attached to consultations.

- `src/` is the library, verified with Verus. The accounts table is modelled
  as `AccountsTable` (rows in insertion order); registration, password and
  token sign-in, administrator checks, account lookups, the validation of
  consultations and join forms, and the access decisions for attachments are
  functions on plain values with exact contracts. Argon2 hashing, UUID
  generation, the local clock and rayon are reached through small trusted
  wrappers whose contracts say what those crates guarantee. `account_laws.rs`
  holds the laws that relate the account operations.
- `app/` is the actix-web server: routes, JSON shapes, the SQLite file, and the
  file system. Each request loads the rows it needs, asks the library, and
  writes back what the library decided.
- `tests/` exercises the library on concrete values.
