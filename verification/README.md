# user_permission

Verified core of the Python bindings for the `user-permission` user / group /
service-client store (`user_permission_core`).

- `src/` — the library, checked by Verus:
  - `database.rs`: the database handle (target, secret file, connection) and
    what every operation gets before `connect()`, after it, and after `close()`;
  - `token.rs`: selection of the signing algorithm, token lifetimes, and the
    token manager (issue user and service tokens, verify tokens);
  - `service_client.rs`: the read-only scope check and the service-client record;
  - `user.rs`, `group.rs`: the user and group records;
  - `text.rs`: decimal, boolean and `Debug` text used by the records' `repr`;
  - `password.rs`: Argon2id password hashing and checking;
  - `error.rs`: the errors reported to Python.
- `app/` — the Python extension module (PyO3 classes and coroutines) built on
  the library.
- `tests/` — tests of the library.
