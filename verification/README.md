# auto_drafter

A web service that helps a law office draft demand letters and pleadings with a
chat-completion service, with its deciding core written in Verus.

- `src/` is the verified library: the prompts (`prompts`), the JSON bodies of the
  requests (`request`), the reading of the service's answers (`json`, `reply`),
  the errors (`error`), the drafting exchange as a state machine (`exchange`),
  and the naming of uploads and OCR failures (`files`).
- `app/` is the server around it: HTTP routes, environment, file and network I/O,
  and the OCR engine. It runs each exchange by doing what the library's actions
  ask and reporting back what happened.
- `tests/` runs the library on concrete values.
