# dayax

A scriptable web server whose request handlers are Lua functions.

- `src/` is the verified library: the route tables that a Lua script fills
  (`dayax`, `userdata`, `route`), the Lua registry keys (`runtime`), how a
  request is shaped for a handler (`request`, `map`, `text`, `media`), and which
  response a handler's result gives (`response`, `handler`, `json`).
- `app/` is the program around it: the command line, the Lua runtime, the
  axum server, request extraction and the building of axum responses.
- `tests/` exercises the library on concrete values.
