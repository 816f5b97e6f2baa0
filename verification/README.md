# schwab_api

A client for the Charles Schwab trading API whose core is verified with Verus.

- `src/` is the verified library. It holds the client's logic: the rules
  for application credentials, the PKCE code verifier, the lifetimes of OAuth
  tokens and when they must be renewed, the reading of the token endpoint's
  replies, the HTTP request of every API call (method, URL, headers, query),
  the requests of the streaming service, the record of stream subscriptions
  that a reconnected stream asks for again, the stream's active state and the
  reconnection back-off. Each public function states what it returns in its
  `ensures`; the `law_*` proof functions state properties that span calls.
  Calls into chrono, base64, urlencoding and std's random hasher keys go
  through small trusted items (`time.rs`, `codec.rs`, `pkce.rs`) whose
  contracts say what the library relies on.
- `app/` is the asynchronous shell around it: reqwest for HTTP, the token file,
  the background refresh task, the WebSocket connection and its reconnection
  loop, and the serde shapes of the JSON bodies (including the response types
  that carry prices, which hold floating-point numbers).
- `tests/` exercise the library on concrete values.
