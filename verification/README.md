# tmux_pilot

`pilot` organises tmux sessions around Azure DevOps features and tmux
windows around user stories, bugs and tasks, and launches GitHub Copilot CLI
with the work item as context. It also runs background watchers (pipelines,
pull requests, SonarQube, custom scripts) that raise notifications.

This crate is written in Verus. The library under `src/` holds the logic,
each function with a `requires`/`ensures` contract that Verus proves; the
program under `app/` does the input and output around it (terminal UI,
tmux and curl processes, SQLite, config files, threads).

## Layout

- `src/text.rs`, `src/order.rs`, `src/html.rs`: text operations, the
  lexicographic order and sorting of names, HTML to plain text.
- `src/config.rs`, `src/env_config.rs`, `src/store.rs`: configuration, work
  items and the records kept in the database.
- `src/azdo.rs`, `src/poll.rs`: WIQL queries and REST URLs, reading replies,
  and the notices that watchers draw from polled JSON.
- `src/tmux.rs`, `src/copilot.rs`, `src/cli.rs`: tmux argument lists and
  parsing of their output, the copilot command line, the command-line
  commands.
- `src/entries.rs`, `src/lists.rs`, `src/fuzzy.rs`, `src/merge.rs`,
  `src/listing.rs`: selector entries, grouped rows and cursor movement, fuzzy
  filtering, merging fetched work items into the local lists.
- `src/display.rs`, `src/keys.rs`, `src/plans.rs`, `src/screen.rs`,
  `src/hierarchy.rs`: what the
  screens show, what a key does, and the steps that opening a feature, task
  or session takes.
- `src/watch.rs`, `src/watch_list.rs`, `src/notices.rs`: watchers, the
  watcher manager and the notification center.
- `src/setup.rs`, `src/demo.rs`, `src/showcase.rs`: the setup wizard and
  demo mode.

Public proof functions (`lemma_*`) state properties that hold across calls,
such as the restart arguments of a watcher reading back as the same watcher,
or a second merge of the same AzDo reply adding nothing.
