# gitlab

A library for talking to Gitlab instances, verified with Verus.

Every endpoint states, in its contract, the HTTP method, the path below
`/api/v4/`, the query parameters and the form body that it sends; builders
state which fields they need. The entities Gitlab returns are plain data
types, and the fields whose meaning depends on other fields (the IDs of note
targets, the kinds of hooks, the dates of web hooks) are read by verified
functions.

Layout:

- `src/api/` – endpoints (`projects`, `users`), the `sudo` and `raw`
  modifiers, the client interface and its errors, and the retry decisions.
- `src/types.rs`, `src/webhooks.rs`, `src/hooks.rs` – entities and hooks.
- `src/gitlab.rs` – the requests of the higher-level client, what it makes of
  Gitlab's answers, and its settings; `src/query.rs` – what queries of the
  older kind make of an answer.
- `src/auth.rs` – tokens and the headers that carry them.
- `src/test/client.rs` – clients that check requests against the ones a
  test expects and answer with canned (optionally paged) data.
- `src/params.rs`, `src/text.rs`, `src/json.rs`, `src/order.rs`,
  `src/common.rs` – parameters and their encodings, JSON values, times and
  dates.
- `app/` – a blocking HTTP client built on `reqwest` that sends the requests,
  reads JSON answers and sleeps between retried attempts.
