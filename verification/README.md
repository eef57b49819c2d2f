# users

User authentication and authorization for a set of HTTP functions: passkey
(WebAuthn) registration and logon, sessions bound to a DPoP key (RFC 9449),
and grant-based authorization with per-user attributes merged over a
group's.

`src/` is the library, verified with Verus: which requests, proofs,
sessions and grants are accepted, in which order the checks run, and what
each refusal is answered are functions there, with contracts over
`Seq`/`Map` models. The outside crates (`jsonwebtoken`, `sha2`, `base64`,
`uuid`, `rand`, `chrono`) are called from there through a few small
trusted wrappers whose contracts are stated in their doc comments.

- `dpop` — checking a proof: its JOSE header, its ES256 signature (by
  `jsonwebtoken`), its claims against the request; replay detection; the
  RFC 7638 key thumbprint.
- `session` — the `Authorization: DPoP <token>` header, the order of
  authentication (header, session, proof, key binding) as a step function,
  session expiry, minting session tokens.
- `attributes`, `authorization` — grant attributes as a map, how a user's
  group and direct grants resolve, the authorization answer.
- `admin`, `logon`, `registration`, `logout`, `check` — the services'
  request validation, pending ceremonies, the session a logon issues, and
  error answers.
- `config`, `clock`, `codec`, `text`, `store`, `response` — configuration
  defaults, time, digests and encodings, string helpers, store names.

`app/` is the services themselves: axum routers and handlers, Firestore
reads and writes, WebAuthn ceremonies and the HTTP call to `authorization`,
calling the library for each decision.

`tests/` exercises the library on concrete values.
