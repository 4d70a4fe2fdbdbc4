# smart_meter_backend

The REST backend of a smart meter: it stores user accounts and the temperature, CO2 (ppm),
light and boiler readings that each user's Raspberry Pi sends, and answers queries on them.
The HTTP API is described in the project's `schema.md`.

- `src/` is the verified library (Verus): the `users` and `frames` tables and their
  queries (`sql_actions`), the decision taken for each request (`handlers`), the lists and
  boiler average of a user's readings (`readings`), and the laws that hold across requests
  (`laws`). Password hashing (argon2), fresh ids (uuid) and the clock (chrono) are reached
  through the trusted items in `password` and `clock_ids`.
- `app/` is the actix-web server: routes, JSON and Diesel/SQLite persistence, the HTTP call
  that toggles an appliance, and the floating-point averages.
- `tests/` exercise the library.
