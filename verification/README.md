# stui

A TUI for managing GNU Screen sessions, optimised for phone-sized SSH terminals.

- `src/` is the library: it reads what screen prints, decides what keys do, and
  lays out what is shown. It is written in Verus, and its contracts are proved. A
  few items are believed instead: those that hand a call on to `std`, `clap`,
  `ratatui` or `unicode-width`, each with a comment that says what is claimed of the
  call. The library makes no system call.
- `app/` is the program around it: it runs screen, reads and writes files, and
  draws to the terminal.
- `tests/` run the library on concrete values.

The library is split as follows.

| module | what it does |
| --- | --- |
| `text` | characters, lines, words and numbers |
| `screen` | commands, listings, capabilities, snapshots and processes |
| `config` | the configuration and where it is kept |
| `i18n` | the two languages |
| `app` | the state of the interface, its keys and its main loop |
| `ui` | layouts, rows, panels and dialogs as styled text |
| `arguments`, `cli` | the command line and `stui ls` |
| `doctor` | `stui doctor` |
| `util` | display widths, time stamps and names of temporary files |

What screen and the system answer comes in as plain values, so everything that is
decided can be proved for every answer.
