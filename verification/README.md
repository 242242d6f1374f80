# agent_review_helper

A command-line tool that prepares a self-contained folder of pull-request review
artifacts (local and upstream diffs, the merged conversation timeline, a README
manifest) inside a jj workspace checked out at the PR head, plus a local
revision-range mode.

The library in `src/` is verified with Verus. It holds everything the tool
decides: parsing git remote URLs and choosing the base remote, reading `jj`
listings, the command lines of every `jj`/`gh` call and how their outcome is
judged, where a bundle's folders live, the steps that prepare or remove them,
the git-exclude update, the chronological merge of comments and reviews, the
Markdown it renders, and the order of a run as a state machine.

`app/` is the program around it: argument parsing (clap), reading `gh`'s JSON
(serde), running child processes, and touching the filesystem.

Modules of `src/`:

- `text` — trimming, lines, words, splitting and decimal numbers over `Seq<char>`.
- `repo` — remote URLs, fork URLs, base-remote choice, discovery.
- `jj`, `gh`, `process` — command lines as values and their outcomes.
- `paths`, `layout` — path joining (by `std::path`) and bundle layout.
- `workspace` — workspace names, the git exclude file, folder steps.
- `artifacts` — produced files, the conversation timeline and its Markdown.
- `manifest`, `range`, `context`, `plan`, `session` — the bundle README, range
  files, shared context, run decisions and run order.
