# ciri

A command-line assistant that asks a language model (a local Ollama server,
or an OpenCode server when one is running) for a Conventional Commit message
(`ciri commit`) or a pull request title and body (`ciri pr`).

- `src/` is the library, verified with Verus: prompt construction, diff
  truncation on UTF-8 character boundaries, fence stripping and title/body
  splitting, backend selection, the framing of Ollama's streamed NDJSON reply,
  the git argument vectors and base-branch search, and both commands as state
  machines with their transitions stated as spec functions and their laws
  proved as proof functions.
- `app/` is the program: argument parsing, spawning git and `gh`, the HTTP
  exchanges, JSON decoding, spinners and markdown rendering. It drives the
  state machines of `src/` and reports each outcome back.
- `tests/` runs the library on concrete values.
