# ai_debug_agent

A log-debugging service: clients open a session with their AI provider key,
submit logs, and fetch the analysis that a pool of workers produces from a
Redis stream, with retries and a dead-letter stream.

- `src/` is the verified library (Verus): job and session models, the error
  type, configuration from an environment snapshot, the queue's keys, stream
  entries and job state records (written and read back), delivery decisions,
  session key sealing (SHA-256, AES-256-GCM, base64), the AI answer reader,
  and the worker's processing steps with retry backoff.
- `app/` is the process around it: the HTTP API (axum), Redis I/O, the AI
  provider's HTTP calls (reqwest), JSON, and the worker loop.
- `tests/` exercises the library.
