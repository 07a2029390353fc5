# MboaCaisse core

The business rules of the MboaCaisse point of sale (bar, restaurant,
grocery): orders and their lifecycle, cash and wallet payments, the
append-only wallet ledger, the product catalogue, users with four roles,
session tokens and access control, settings, first-start data and the
one-time wallet migration. Each of these rules is an executable function
with a contract proved by Verus.

Three guarantees rest on SQLite and the service code in `app/`, and are not
proved here: that ledger rows are never updated or deleted (the library
proves which entry is written and how a balance is summed from the
entries, not what the database does with them later); that a payment's
status change and ledger writes happen in one transaction, and how two
concurrent payments on one order are serialised; and how settings are
read from and written to the settings store (the library proves what is
kept of each stored value and what a change request writes).

Layout:

- `src/` — the verified library.
  - `domain/` — entities and their invariants (users and permissions,
    orders, payments and split payments, wallet ledger, catalogue, password
    hashing, session tokens).
  - `api/` — what each HTTP endpoint decides, as functions from the request
    and the data read for it to the reply and the rows to write; access
    control and cookie handling.
  - `db/` — row decoding, storage error texts, the wallet migration plan and
    the seed data.
  - `settings.rs`, `server.rs` — configuration values and listening ports.
  - `text.rs`, `clock.rs`, `random.rs` — string helpers and the calls to the
    clock, the random generator and lower-casing.
- `tests/` — tests of the library on concrete values.
- `app/` — the service around the library: SQLite repositories, axum
  handlers and middleware, mDNS, startup and shutdown.
