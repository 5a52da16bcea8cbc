# axumortem-engine

Two analysis passes over the findings of a binary analysis engine, verified with
[Verus](https://github.com/verus-lang/verus).

- `passes::behavior` correlates imports, strings and entropy into behavioural
  patterns: ransomware, reverse shell, dropper, keylogger, rootkit. A pattern fires
  when at least three of its indicators match.
- `passes::sandbox` reports sandbox and analysis evasion: timing checks, debugger
  detection, resource and user-interaction checks, environment fingerprinting.

Layout of `src/`:

- `context`, `types`, `error`, `pass`: what the engine and its passes share.
- `text`: case folding, substring search, decimal rendering, ordering.
- `matching`: import names against API names.
- `double`: what a double-precision number is, by its representation.
- `laws`: what holds of the passes as a whole.

The one thing taken on trust is `str::to_lowercase` (see `text::to_lowercase`).
`app/` holds the serializable forms of the results.
