# rumahl_platform

The verified core of the rumahl platform's runtime supervisor and persistence
rules, written in Verus.

- `src/` is the library, verified by Verus; its functions carry contracts
  over the control and secret socket protocols (framing, parsing,
  replies, and the text forms of the domain IDs they carry), the Docker runtime target as a state machine from events to
  commands, namespace secret delivery plans, staged image metadata, secret
  sealing around AES-256-GCM, TPM2 key provider configuration, the
  supervisor's command line, the app operation journal's encodings, the
  platform API's request and session decisions (local browser-session
  authentication included), the OIDC store's single-use grant decisions,
  and the password lockout policy. Timeouts are counted in nanoseconds. Calls into `sha2`, `aes-gcm`, `getrandom` and a few std
  functions (UTF-8 decoding, `str::trim`, the system clock) stand behind small
  trusted wrappers whose contracts are stated in their doc comments.
- `app/` is the supervisor program: argument handling, sockets, files and
  `docker` processes. It hands plain values to the library and performs the
  actions the library decides.
- `tests/` runs the library on concrete values.
