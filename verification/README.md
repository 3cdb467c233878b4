# kcm

Verified command logic of `kcm`, the command-line tool for kako-craft containers and
destinations.

- `src/` is the library, verified with Verus: validation-report classification and rendering,
  failure exit codes, the interactive link-check session, entry listings, link information,
  container-kind dispatch and forced-storage confirmation, destination member ordering, fixture
  summaries, and the text primitives they rest on (decimal rendering and parsing, trimming).
- `app/` is the program around it: the clap command tree, the calls into the container library,
  terminal input and output, JSON serialization, and logging.
- `tests/` exercises the library on concrete values.
