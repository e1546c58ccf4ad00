# orpheusdl-tray

A helper that receives download requests from the *Share to OrpheusDL*
browser extension over HTTP, queues them, and runs OrpheusDL on each queued
URL, keeping the output of failed (and, in debug mode, successful) runs in the
program folder's `logs` directory.

- `src/` is the verified library (Verus): configuration defaults and merging
  with the command line (`config`), the queue and the worker's decisions
  (`queue`), request authorization (`server`), the logging level (`logger`),
  the tray menu's dispatch (`tray`), icon decoding (`icon`) and decimal
  formatting (`text`).
- `app/` is the program around it: configuration file, HTTP server, process
  spawning, logging backend and tray icon.
- `tests/` runs the library on concrete values.
