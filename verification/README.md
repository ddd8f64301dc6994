# jsonrpc_utils

Pub/sub, a stream server, HTTP handlers, HTTP clients and RPC code
generation for `jsonrpc-core`. The message texts, ids, the subscription
registry, the server's step on each event, and the naming and parameter
rules of the generated code are stated and proved in Verus; timers, tasks,
network I/O and the code templates are not.

- `src/` is the verified library:
  - `pub_sub`, `pubsub`: published messages, the notification text sent for
    them, and the rule that a subscription stream ends after its first error;
  - `id`: subscription ids (`0x` and 32 lower-case hex digits);
  - `subscriptions`: the registry of live subscriptions and cancellation;
  - `stream`: server settings and the server's step on each event, with
    the requests it is handling;
  - `axum_utils`, `client`: what the HTTP handler answers and what a client
    makes of a response;
  - `macros`: naming and parameter rules for generated RPC code;
  - `json`: the outside JSON types and serialization calls.
- `app/` holds the asynchronous transports, timers, task spawning, the HTTP
  clients and the `syn`/`quote` code templates, which call the library for
  the decisions above.
- `tests/` runs the library on concrete values.
