# cog_core

The verified core of `cog`, a Google Workspace client and daemon.

`src/` is checked by Verus. It holds the logic with its contracts:

- `error`, `destructive`: the error taxonomy with its exit codes, and the
  gate on bulk operations.
- `config`, `strmap`: account aliases, OAuth client choice per account or
  domain, file and socket locations.
- `auth`: client credentials, token validity, OAuth2 request parameters and
  token updates, scopes, service-account JWTs, the keyring account index.
- `http`: response classification, retry verdicts, backoff with jitter,
  the circuit breaker, request headers and query strings.
- `services`: per-API request URLs and the data transformations behind the
  clients (message composition and text extraction, free-slot search,
  index documents and cursors, the "sed" rewrite plan, placeholder and
  speaker-notes lookup).
- `api`: monitor subscriptions and the daemon's request replies.

Laws that span several calls are public proof functions next to the code
they are about (for instance `lemma_free_windows_avoid_busy`,
`lemma_unsubscribe_undoes_subscribe`, `lemma_consecutive_failures`).

`app/` is the daemon program around the library: sockets, HTTP over
hyper and rustls, files, the OS keyring, JSON, and the clock.

`tests/` exercise the library on concrete values.
