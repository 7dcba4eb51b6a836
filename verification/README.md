# antarctica_cli

A terminal client for the Antarctica blog server: browse the latest blogs,
log in or register, manage your own blogs in a profile, read them as source
or rendered markdown, and write them in a vim-like editor.

The crate is written in Verus.

- `src/` is the verified library: the pages and what each key does to them
  (as state machines with a specification for every step), the navigation
  between pages and the commands it issues, the dialogs, the footer and help
  texts, the markdown styling, the request addresses and bodies, the error
  codes and their messages, and the character-level text handling beneath
  them (UTF-8 lengths, display widths, wrapping, line splitting).
- `app/` is the program around it: the terminal (crossterm and ratatui), the
  HTTP client (reqwest), the configuration file (serde_json, dirs) and the
  log (tracing). It performs the commands the library returns and draws what
  the pages say to show.
- `tests/` runs the library on concrete inputs.

The configuration lives in `~/.config/antarctica-cli/config.json`; the
default server is `http://localhost:8080`.
