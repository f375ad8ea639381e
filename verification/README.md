# blackduck-tui

A terminal client for browsing Black Duck software composition analysis
data: projects, their versions, and each version's BOM components,
vulnerabilities and policy violations.

The crate is split in two:

- `src/` is the library, verified with Verus. It holds the application
  state and every decision the program makes:
  - `app` — screens, focus, the selectable lists, search and component
    filters, and the filtered views of the loaded lists;
  - `selection` — moving a cursor through a filtered view and keeping it
    on a visible row;
  - `events` — how a key press or a finished background task changes the
    state, and which request the caller must perform next;
  - `rules` — ordering and de-duplicating the violated policy rules
    offered for filtering;
  - `api` — the API records, the request URLs and headers of the client,
    and how request failures are described to the user;
  - `config` — configuration defaults and environment overrides;
  - `panels` and `ui` — the text of every list row, title, side panel and
    status line, with the tone each piece is drawn in;
  - `text` — the string operations the rest is built on.
- `app/` is the program around it: the terminal loop, keyboard input,
  HTTP requests, configuration files, logging and drawing with `ratatui`.
  It performs the actions the library returns and hands the results back.

Run the tests with `cargo test`; verify the library with Verus.
