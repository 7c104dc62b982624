# cn2en

Core of a Windows tray tool: select Chinese text anywhere, press
`Ctrl + Alt + T`, and the selection is replaced by its English translation
(DeepSeek or any OpenAI-compatible chat-completions endpoint).

- `src/` — the library, verified with Verus: Chinese detection and the tail
  segment of a text, trimming, settings and their normalisation, the hotkey
  decisions of the keyboard hook, the monitor that allows one translation at
  a time, the selection workflow as a state machine (copy, check, translate,
  paste, restore the clipboard), the translation request and reply rules, the
  tray's rules, and the UI Automation decisions: which pattern gives an
  element's text, writability, the capture and overwrite checks, and the
  search for a text control (breadth-first below an element to a depth of
  four, stopping at the first candidate; at most four ancestors; the order of
  the tree views). Walking the automation tree itself is done by `app/`.
- `tests/` — tests of the library on concrete values.
- `app/` — the desktop shell (Tauri, keyboard hook, clipboard, keystrokes,
  HTTP, UI Automation, configuration file) that performs what the library
  decides.
