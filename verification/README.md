# prq

`prq` (PR Queue) is a terminal browser of the open pull requests of a GitHub
repository. It asks the GitHub CLI (`gh`) for the list and for the detail of a
pull request, and shows at a glance which ones need attention: the review
decision, the check rollup, and how the signed-in user is involved.

## Layout

- `src/` is the verified library (Verus):
  - `model.rs`: review, check and mergeability states read from `gh`'s words;
    check classification and rollups; the summary and detail records; the
    people on a pull request (reviews first, then pending requests); the
    signed-in user's involvement.
  - `app.rs`: the application state and its transitions (selection, refresh
    results, detail view, keys, automatic refresh), with the laws they keep.
  - `ui/`: the text and tones that the screen shows (glyphs, ages, header,
    footer, list and detail texts, the wrapped description).
  - `text.rs`, `clock.rs`, `cli.rs`: string helpers, clocks, settings.
- `app/` is the terminal program: `gh` invocations, JSON reading, the
  background worker, the event loop and the drawing with ratatui.
- `tests/` runs the library on concrete values.
