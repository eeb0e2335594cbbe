# music_tui

A terminal music player whose interface logic is a verified library.

`src/` is the library, checked by Verus:

- `model` — tracks, the in-memory library and its three derived columns
  (album artists, albums, tracks) with search filtering and ordering; repeat
  modes; display helpers.
- `order` — lexicographic keys and the stable ordering the columns use.
- `text` — character-level helpers (trimming, substring search, decimals).
- `state` — focus targets, tabs, list selections, screen rectangles, and the
  `Effect`s the interface asks the program to perform.
- `app`, `app_nav`, `app_play`, `app_search`, `app_lists`, `app_settings` —
  the interface state machine: navigation, queue and playback decisions,
  the search field's editing commands, playlists, scans and settings.
- `input` — the keymap and pointer handling.
- `ipc` — remote-control commands and command-line flags.
- `scan` — which files are audio, and how tag values become a track.
- `config` — configuration values, layout validation, file locations and
  the generated config text.
- `toml_doc` — saving the configuration into the user's config file, key by
  key, keeping comments and other keys (through `toml_edit`).
- `theme` — what the color names in the config mean (through ratatui).
- `ui`, `art` — text shaping and geometry for drawing (including the
  browser body's layout); cover thumbnail names.

`app/` is the program around it: the terminal, drawing with ratatui, audio
with rodio, SQLite, tag reading, files and sockets. It performs each
`Effect` and reports outcomes back to the state machine.
