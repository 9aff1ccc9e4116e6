# dockerctl

The command center of `dockerctl`: a terminal dashboard that lists the projects of a Docker
host, plans operations on them and carries a plan out once it is confirmed, and an operations
inbox that lists what needs attention, most urgent first. The logic is written in Verus and
verified; the terminal around it is ordinary Rust.

## Layout

- `src/` is the verified library.
  - `text.rs`: joining, ordering, searching and padding text.
  - `domain.rs`: projects, snapshots of a host, plans and errors.
  - `name_set.rs`: the set of selected project names.
  - `resources.rs`, `inbox.rs`: measured resource use and the operations inbox.
  - `tui/dashboard.rs`: the state of the dashboard, its list, cursor and targets.
  - `tui/mouse.rs`, `tui/keys.rs`, `tui/prompt.rs`, `tui/menu.rs`: what the mouse and the keys
    do, the confirmation of an operation, and the context menu.
  - `tui/deck.rs`, `tui/screen.rs`, `tui/layout.rs`: the texts, styles and areas to be drawn.
  - `tui/laws.rs`: what holds of the dashboard as a whole, such as that the mouse never
    carries an operation out and that a plan with a token runs only after the token was typed.
- `app/` draws the dashboard with `ratatui`, reads events with `crossterm`, talks to a Docker
  client, and gives the inbox its exchange format.
- `tests/` runs the library.

## What is taken on trust

`str::to_lowercase`, `String::push` and `String::pop` of std, and `Rect::new` and
`Layout::split` of `ratatui`; each is stated next to its declaration. How long the parts of a
split area are is stated where all of them can get what they ask for; on smaller areas it is
the layout solver's choice.

The planner that turns an action and its targets into a plan is an argument: the contracts hold
for every planner, and say what becomes of each of its replies.
