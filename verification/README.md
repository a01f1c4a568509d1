# statusline

A segment-based status line for a coding assistant's terminal UI: folder,
git branch, model, context use, thinking indicator, effort level, rate-limit
bars and active tasks, drawn with ANSI colours.

- `src/` is the library, verified with Verus: every segment's text, the
  colour codes, the `#RRGGBB` reader, the line layout, the configuration
  defaults and theme overrides, and the small rules around them (cache
  freshness, token precedence, task counting), each with its contract.
  Public `law_*` proof functions state the properties that hold across calls.
- `app/` is the program around it: argument parsing, reading stdin and the
  configuration file, running `git`, the HTTP request for usage figures,
  the cache file, and the floating-point rounding of utilisation figures.
- `tests/` runs the library on concrete inputs.
