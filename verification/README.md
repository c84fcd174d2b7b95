# predlab

The logic of the PredLab paper-trading club tools, written in Verus and
proved against its specifications, plus the programs around it.

## Layout

- `src/` — the verified library.
  - `text.rs` — char-level building blocks: decimal rendering, thousands
    grouping, truncation, HTML escaping, URL path encoding, trimming,
    substring search, `usize` parsing.
  - `money.rs` — dollar text for amounts in whole cents; the deterministic
    club ranking (highest balance first, ties alphabetical).
  - `site/` — the public leaderboard site: box-drawn tables, the static
    pages, and the board itself (hiding staff accounts, ranking by net
    worth, club statistics, the board page), the markets browser with its
    search box and paging, and the member profile page.
  - `tui.rs` — the member terminal client's state and its vim-style key
    handling, stated as a step function from state and key to new state
    and outcome.
  - `admin.rs` — the admin console's state machine: key handling with
    staged, confirm-on-`y` destructive actions, and the messages shown
    for each outcome of the outside work.
  - `gui.rs` — the desktop client's configuration, messages, reply shapes
    and the decisions its screens make; `gui/engine.rs` — its network
    engine as a step function from state and event (a command, or the
    reply to a call) to new state and the calls, refreshes and messages to
    perform.
  - `clock.rs` — the clock, as std reports it.
- `tests/` — tests of the library on concrete values.
- `app/` — the programs: `predlab site` (the leaderboard web server),
  `predlab tui` (the member terminal client) and `predlab admin` (the admin
  console), plus the desktop client's engine thread, HTTP adapters and
  configuration file (`app/desktop.rs`; its graphical screens are not part
  of this build). They do the terminal, network and database work and hand
  plain values to the library.

Amounts are whole cents throughout the library; the programs convert the
simulator's floating-point dollar figures at the edge.
