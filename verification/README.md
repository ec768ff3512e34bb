# hermes

The verified core of the Hermes chat server and of its voice overlay.

`src/` holds the decisions of the service as functions over plain values,
each with a contract proved by Verus:

- OAuth 2.0 with PKCE: authorization requests, scopes, code and refresh-token
  exchange with single use and family revocation, error answers and
  redirects (`authorize`, `scope`, `pkce`, `token`, `oauth_errors`);
- signed tokens: EdDSA compact JWS signing and checking, claims and key ids
  (`jws`, `jwt`);
- access control: permission masks, channel access, role grants without
  escalation (`permission`, `roles`, `messages`, `channels`, `servers`,
  `friends`);
- request checks, bearer headers, cursors, account pages, stored records
  (`validation`, `bearer`, `cursor`, `turnstile`, `startup`, `models`);
- the socket registry and voice-channel membership (`session`);
- the overlay's room reducer and status rendering (`voice_state`, `render`,
  `overlay`).

Calls into `base64`, `sha2`, `rand`, `uuid`, `time`, `url`, `indexmap`,
`validator`, `nanoid`, `jsonwebtoken`, `ed25519-dalek` and `serde_json` go
through small functions whose contracts state
what those crates document.

`app/` is a command-line front end that reads files and the environment,
turns claims into JSON and back, and prints what the library decides. `tests/` exercises the library on concrete values.
