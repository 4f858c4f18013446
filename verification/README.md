# meowspace

Cat accounts for a small web service: registration, login, profile
updates, and the claims of the authentication tokens handed out.

- `src/` is the verified library (Verus). It decides what is inserted on
  registration (the scrypt hash of the password), how a refused insert is
  answered, whether a login succeeds, what an update may change, which
  fields a request goes on with and which errors a refused request gets.
  - `scrypt.rs`: the calls into the `crypto` crate and the layout of the
    stored hashes.
  - `clock.rs`: the call into `chrono` for the current time.
  - `db/cats.rs`, `models/`, `routes/cats.rs`, `errors.rs`: the logic.
- `app/` is the Rocket server around it: routes, the Postgres store
  through Diesel, JSON, and the token guard.
- `tests/` runs the library on concrete values.
