# bilibili_recorder

Records live streams of Bilibili, by hand or whenever a watched room goes on air.

- `src/` is the library: which room the user means, what the platform's answers say, which stream
  is recorded, how FFmpeg is called, what is done when a recording starts and ends, when rooms are
  watched and checked, how files are named and converted, and which requests of the user are
  granted. Every function has a contract that Verus proves. Work that takes several steps outside
  (requests, processes, files, the database) is a sequence of steps: a value names what is to be
  done, and a function gives the next step.
- `app/` does that work: HTTP, processes, files, the loop that watches rooms, and the window.
  Storage and the pace of checks are reached through the traits in `app/ports.rs`.
- `tests/` runs the library on concrete values.

Contracts are stated over texts as sequences of characters. What the library takes from outside
crates stands behind small functions marked `external_body`, each with a comment that says what is
assumed of the outside function: `chrono` for clocks, dates and RFC 3339, and `reqwest` for URLs,
status codes and header values.
