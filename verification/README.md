# latin_website

The back end of a site for learning Latin: registration of users, tokens for
authentication, and the errors the server answers with.

- `src/` is the verified library (Verus):
  - `errors`: the error type, its status codes, texts and reply bodies;
  - `auth`: the claims of access and refresh tokens, the refresh-token cookie,
    and the reading of the `Authorization` header, with its laws;
  - `models::users`: user records, lookups, and Argon2 hashing of passwords;
  - `routes::users`: the reply that hands out a pair of tokens.
- `app/` is the actix-web server around it: HTTP, JSON, the signing and checking
  of tokens with `jwt-simple`, and the tables (held in memory).
- `tests/` runs the library on concrete values.
