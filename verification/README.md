# axum_todo

A todo-list web service (users, categories, todos, JWT login) whose logic is a
Verus-verified library, with a thin Axum/SeaORM program around it.

- `src/` — the verified library:
  - `error` — `AppError` and the HTTP answer (status, body) of each error;
  - `validation` — field rules of request bodies and the report of broken fields;
  - `database` — pool settings and the connection retry policy (a state machine);
  - `text` — decimal, hexadecimal, UUID and JSON-string writing;
  - `modules::auth` — token claims, signing and opening (HS256 via
    `jsonwebtoken`), expiry, the bearer guard, login and registration;
  - `modules::user`, `modules::category`, `modules::todo` — bodies, rows,
    what the repositories write and what the services answer; password
    hashing with `bcrypt`.
- `tests/` — tests of the library on concrete values.
- `app/` — the program: routes, handlers, database access with SeaORM, the
  request extractors, the schema migration and `main`.
