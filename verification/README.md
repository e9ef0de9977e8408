# daily

Python bindings for the Daily client SDK, with their decision logic verified
by Verus.

- `src/` is the verified library: the JSON model of meeting events and which
  event-handler method each one reaches, request ids and completion callbacks,
  the call client's cached meeting state and renderer registries, the checks
  made before requests are sent, the JSON bodies of live-stream and recording
  requests, and the frame and sample arithmetic of the virtual devices.
- `tests/` runs the library on concrete values.
- `app/` is the `daily` Python module itself: the pyo3 classes, the calls into
  the native SDK and its C callbacks, and JSON text conversion. It hands the
  library plain values and acts on what the library decides.
