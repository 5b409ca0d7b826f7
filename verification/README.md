# steel

The logic of an osu! chat client, verified with Verus: the chat tabs and their messages,
unread tracking and highlights, message search, chat commands, the settings window's edits,
the error popup, link handling, the updater's decisions and downloads, requests for the
user's attention, and the main window's handling of events from the application core.

Layout:

- `src/text.rs`, `src/collections.rs`: characters and strings, and small maps and sets keyed
  by chat names.
- `src/app_core/`: chats and messages, the settings, and the updater.
- `src/gui/`: the window's state (`state/`), its event handling (`window.rs`), chat views and
  search (`chat/`), tabs, commands, menus, settings window, widgets and context menus.
- `src/visual_tests.rs`: the chat names used by the visual test harness.
- `app/`: the program around the library: the settings file (YAML) and a line-based driver.
- `tests/`: tests of the library.
