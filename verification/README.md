# vuho_ui

The logic of the Vuho dictation UI, written in Verus: what the menu bar, the
overlay, the panel and the settings show, and how the model-provisioning loop
moves from one state to the next. Contracts say what the library's functions
return and change, and Verus proves them. One thing is taken as it comes: what a
look at a channel finds (`try_receive` in `channels`), of which nothing is
claimed.

- `src/` is the verified library.
  - `domain`, `text`, `theme`, `parts`: the values that the rest works on.
  - `app_status`, `readiness`, `status_bar`: the application's state, the one
    status it comes down to, the permissions, and the menu bar.
  - `overlay`, `event_loop`, `channels`: the live transcript, what the pipeline's
    events do, and reading them off their channel.
  - `panel`, `settings_tab`, `settings_window`, `model_rows`, `languages`,
    `hotkey_presets`, `assets`: the panel's presentations and what they show.
  - `provisioning`, `provisioning_loop`: which model is usable, which is being
    downloaded, and what the UI is told about it.
  - `demo`: made-up sessions.
- `tests/` runs the library.
- `app/` is the macOS application around it: windows, the menu bar, threads and
  channels.

Models are kept as mathematical values: each type that holds text has a view
whose texts are sequences of characters, and the contracts speak of the views.
