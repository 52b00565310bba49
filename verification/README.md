# httpcalls

An HTTP client for Yew applications. Requests are put together with a fluent API;
while they are sent, the application's store is told about loading, progress and
results; failed attempts are repeated with exponential backoff; and when the
services stop answering, their health is checked.

- `src/` is the client's logic, verified with Verus. It performs no I/O: sending a
  request is a sequence of steps (`send::SendStep`), and so is a health check.
  `send_laws.rs` and `health_laws.rs` state what holds of whole runs.
- `app/` carries the steps out in a browser: `fetch`, timers, JSON, the store of
  `httpmessenger`, and the Yew hook.
- `tests/` runs the library on concrete values.
