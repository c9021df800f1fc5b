# eris

The request-handling logic of the eris debate server, verified with Verus.

- `src/` is the library. It holds what the server decides: password hashing
  (Argon2id with a random salt and the server's pepper as secret key),
  session tokens (random bytes, handed out as URL-safe base64, stored under
  their peppered hash), the answer each endpoint gives for each outcome of its
  database queries, the parsing of ids in paths, and the JSON bodies, written
  as serde_json writes them. Calls into `argon2`, `base64`, `rand` and `lettre`
  stand behind small trusted wrappers whose contracts say what is assumed.
- `app/` is the server around it: routes, SQL through `sqlx`, the environment,
  SMTP. Each handler runs a query and hands its outcome to the library, which
  answers with the next step or the response.
- `tests/` runs the library against the real outside crates.
