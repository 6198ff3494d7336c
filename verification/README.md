# argo_node

The logic of a service that runs a proxy core behind a Cloudflare tunnel, written in Verus
and proved against its contracts.

- `src/` is the verified library: settings from the environment (`config`), working-file
  paths (`files`), the proxy core's configuration document (`xray`, `json`), the launch
  plans of the helper processes and the upload plan (`launch`), the table of managed
  processes (`process`), the subscription and its links (`subscription`, `nodes`), the
  tunnel domain and tunnel setup (`tunnel`), request routing and port parsing (`routing`),
  log level, ISP lookup and statistics (`status`), and character-sequence helpers (`text`).
  `ext` holds the trusted wrappers around base64, serde_json, rand and a few std functions.
- `app/` is the program around it: the async runtime, HTTP servers, downloads, child
  processes, files and logging.
- `tests/` runs the library on concrete values.
