# tlmd

A terminal login manager for Linux: it lists the real users of the machine,
lets one be picked (with incremental search), asks for the password,
authenticates with PAM and starts the session through `uwsm`, falling back
to the user's login shell. Shutdown and reboot are offered behind a
confirmation dialog.

The crate is verified with Verus.

- `src/` is the verified library:
  - `state.rs`: the application state and every key's effect, as a model
    (`AppView` and the `*_step` spec functions) and the code proved to
    follow it; `laws.rs` holds the properties proved of the model.
  - `users.rs`: the real users listed in the text of `/etc/passwd`.
  - `tui.rs`, `tui/screen_users.rs`, `tui/screen_login.rs`: the screen
    layout, as lists of terminal operations.
  - `width.rs`: the display width of text, East Asian Wide, Fullwidth and
    Ambiguous characters counting two columns.
  - `auth.rs`: the order of the PAM calls of a login attempt.
  - `system.rs`: the power actions and the steps of starting the session.
  - `text.rs`, `secret.rs`: string helpers and the wiped password buffer.
- `app/` is the program around it: terminal input and output, the PAM
  conversation, the background authentication thread and starting the
  session.
- `tests/` runs the library on concrete inputs.
