# windmill_launcher

The launcher of a desktop application that runs a bundled PostgreSQL server
and the Windmill server and worker as sidecars.

- `src/` is the verified library: path resolution (`paths`), the startup
  sequence as a state machine (`startup`, with its properties in
  `startup_laws`), the readiness wait (`readiness`), routing of sidecar
  output (`sidecar_log`), what is stopped on exit (`shutdown`), the
  front-end command (`commands`) and text helpers (`text`).
- `app/` is the Tauri application: it performs the actions the state
  machine asks for (file checks, processes, sockets, UI events) and answers
  with their outcomes.
