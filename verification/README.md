# triagebot_server

The web server of triagebot, with its decisions in a library that Verus verifies.

- `src/` is the library. It decides, from plain values, how requests are routed and answered
  (`serve`, `routes`, `query`, `headers`, `response`, `agenda`), how the server comes up
  (`startup`, `config`) and how the background jobs are kept alive (`jobs`). What holds of it as a
  whole is stated and proved in `laws`.
- `app/` is the program around it: it reads the environment, talks to the network and the
  database, and does the work that the library asks for.
- `tests/` runs the library on concrete requests and settings.

The library calls `route-recognizer` to match paths, `hyper` to look up headers and `url` to decode
query strings. What it relies on there is stated at the functions that make these calls, under
"Trusted".
