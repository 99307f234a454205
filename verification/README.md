# ginger-db

A command-line tool that runs a project's local databases with
`docker-compose`, shows them in a terminal dashboard, and regenerates model
code when the schema studio publishes a change.

## Layout

- `src/` is the library, written in Verus. Every function there carries a
  `requires`/`ensures` contract that Verus proves, and the `pub proof fn`
  items state the laws that hold across calls.
  - `text` — splitting, trimming, joining and searching text, with exact
    specifications over `Seq<char>`.
  - `compose`, `settings`, `types` — the data of `docker-compose.toml`,
    the project settings and the schema documents.
  - `ui`, `screen` — the dashboard: connection strings, panels, geometry,
    and the state machine that turns keys and clicks into the next screen
    and a command.
  - `docker`, `boot` — reading what `docker` prints, and the start-up and
    shutdown progress views.
  - `render`, `watch`, `auth`, `setup` — the order in which schemas are
    rendered, the studio watch protocol and its reconnect backoff, the API
    token, and the interactive database set-up.
- `app/` is the program around the library: argument parsing, processes,
  files, the network, terminal drawing and prompts.
- `tests/` runs the library on concrete values.
