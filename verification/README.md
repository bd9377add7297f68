# scriptorium

A notes service (users register, then create, list, update and delete their
notes over HTTP with Basic authentication), split in two:

- `src/` is the verified library. `auth` reads the `Authorization` header
  (text check, `"Basic "` scheme, standard Base64, UTF-8, split at the first
  `':'`) and decides the authenticated user or the refusal; `password` hashes
  and checks passwords with bcrypt; `api` holds the decisions of each
  endpoint (what is refused, and what each outcome of the store is answered
  with); `store` the store's own small rules; `models` the request and answer
  bodies; `encoding` the trusted Base64 and UTF-8 steps.
- `app/` is the axum server and the SQLite store: it reads requests, runs the
  database statements, and hands their outcomes to the library.
