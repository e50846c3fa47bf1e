# app_core

The core of a mobile client, verified with Verus.

- `src/` is the verified library: the session repository (`user_repository`),
  the value types (`model`), what a dictionary or GraphQL reply means
  (`dictionary`, `graphql`), the repository of users with an observer
  (`spike`), and the text operations they rest on (`text`).
- `app/` is the FFI facade: the UniFFI objects and records, the HTTP client,
  the requests, the JSON decoding and the async plumbing, and it delivers
  the observer notifications that the library hands back. It reads JSON
  members into the library's plain records (a member that is not a string
  reads as absent) and keeps the asset's daily change, a float, itself
  (absent reads as 0.0); what a reply means is decided by the library.
- `tests/` runs the library on concrete values.
