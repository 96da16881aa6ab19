# codex-asr

Unofficial command line client, library and local REST server for the one-shot
dictation endpoint of the Codex desktop application.

- `src/` is the library. Everything in it is verified with Verus: which login
  and which proxy count, how an audio file is named and typed, what is posted to
  the endpoint, what a reply means, and what the REST server accepts and answers.
  `src/laws.rs` states what holds of the library as a whole.
- `app/` is the program around it: arguments, files, the environment, processes
  and the network.
- `tests/` runs the library, with the crates that it calls linked.

The calls into `reqwest`, `serde_json`, `base64` and the standard library that
the proofs rest on stand behind small declarations in `src/http.rs`,
`src/json.rs`, `src/auth.rs`, `src/error.rs`, `src/client.rs` and `src/text.rs`.
Each says in its comment what is taken for granted.

`codex-asr` uses a personal login token. Keep the server on loopback, and give
it a key.
