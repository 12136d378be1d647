# wallet_auth

An authentication gateway for wallet holders. A client asks for a nonce for
its public key, signs it with its Ed25519 key and sends the signature back;
on success it receives an access token (15 minutes) and a refresh token
(7 days) as JWT cookies. Protected routes admit requests with a valid access
token and renew the session from a valid refresh token.

- `src/` is the verified library (Verus): credential decoding and signature
  checks, token issuing and checking, the access guard's decision, user and
  log data, endpoint replies and the WebSocket relay's per-frame steps. Cache
  access goes through connections (`cache_link`) that record every command
  sent and its outcome; the contracts of the nonce store, check, spend and of
  the authentication are stated over those records. Clock readings
  (`clock`) can only be taken, not made up; the token checks state their
  outcome over the readings they were judged at. What the cache server
  answers is outside the proofs: the single-use and owner-only laws hold for a
  cache that answers reads from the writes it accepted, and the nonce's 60 s
  lifetime is sent but not modelled.
- `app/` is the server around it: actix-web routes and middleware, the
  PostgreSQL queries, the relay's I/O loops and start-up configuration.
- `tests/` exercises the library on concrete values.
