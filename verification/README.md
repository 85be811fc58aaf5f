# kiro_endpoint

Host names, URLs and request headers of the three Kiro assistant endpoints
(AmazonQ, CodeWhisperer, Runtime), verified with Verus.

- `src/context.rs`: configuration, credentials and the request context, with
  the values a context resolves to (region, client version, token, ...).
- `src/text.rs`: Unicode white-space trimming with an exact specification.
- `src/headers.rs`: user agents and the assistant-API and MCP header lists.
- `src/amazonq.rs`, `src/codewhisperer.rs`, `src/runtime.rs`: the endpoints.
- `src/laws.rs`: what holds across endpoints (region folding, shared headers).
- `src/outside.rs`: the calls into `uuid` (invocation ids) and `reqwest`
  (putting headers on a request builder).
