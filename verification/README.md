# pet-desktop

A desktop pet — an orange cat that sits on the desktop, keeps a task list,
reminds on the hour and reacts to how the user's tasks are going.

`src/` is the verified library:

- `state_machine` — the pet's seven moods, eleven events and sadness level,
  with the rules of every transition and the laws they keep.
- `tts`, `sapi_tts`, `audio`, `powershell` — the spoken texts, the speech and
  sound switches, and the PowerShell command lines that speak and play.
- `hit_test`, `window_style` — click-through over the pet only, and the
  window's Win32 style bits.
- `tasks` — stored tasks and settings, list queries, due-time text and labels.
- `companion` — the window's rules: pictures, bubbles, toggles, the hourly
  chime and the settings panel.
- `commands` — the web front end's commands on the pet.
- `numbers`, `strings` — decimal text, zero padding, integer reading, text
  comparison and blank text.

`app/` holds the programs around it: the Slint window, the Tauri back end,
SQLite storage, sound and speech output and the Win32 window hooks.
