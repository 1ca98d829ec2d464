# dorion

The verified core of Dorion, a lightweight Discord desktop client.

- `src/` is the library, written in Verus. Every function carries a
  contract, and the laws that relate several functions (reading back what
  was stored, toggling twice, merging configurations) are proof functions.
  It covers the configuration and how stored settings are merged over the
  defaults, the plugin, theme and profile folders, the localization of theme
  stylesheets, client mods, notifications and the tray, keybinds, rich
  presence bookkeeping, the proxy, the update check and the updater's
  choices, and the text handling they rely on.
- Calls into other crates (regex, base64, urlencoding, pico-args,
  livesplit-hotkey) go through small trusted wrappers whose contracts state
  what those crates document.
- `tests/` exercises the library on concrete values.
- `app/` is the program around it: the Tauri window, files, network
  requests, and the updater entry point. It makes no decisions of its own.
