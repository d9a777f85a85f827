# mc_oauth

A Minecraft login server that lets a website sign players in with their Minecraft
account. A player joins the server; the server runs the Minecraft login handshake
(handshake, login start, RSA encryption request and response, session server check),
then disconnects the player with a one-time code. A website redeems the code over
`GET /code/<code>` for the player's name, UUID and skin properties.

## Layout

- `src/` is the library, verified with Verus: the wire format (VarInts, strings,
  packets), the per-connection state machine (`session.rs`, `handlers/`,
  `responses/`), the server hash and session server URL (`mojang/`), MOTD formatting
  (`format/`), code generation and the one-time code store (`map/`). Calls into the
  cryptography and buffer crates go through small trusted wrappers whose contracts
  say what the crates document (`buffer.rs`, `crypto.rs`, `generators/`).
- `app/` is the program around it: configuration loading, the TCP loop that performs
  the steps the session decides on, the session server request, JSON and the HTTP API.
- `tests/` runs the library on concrete packets and a full login.
