# rustion

The core of Rustion, a bastion server for SSH access control, written in Verus:
every function of the library carries a contract that the verifier proves.

## Layout

- `src/` — the verified library
  - `policy.rs`: extended policy conditions (IP networks, daily periods, expiry),
    their text form, and checking a request against them
  - `graph.rs`, `roles.rs`: role hierarchies (users, targets and actions in groups)
    and the permission decision
  - `login.rs`: login names, the application a session starts, password and key
    logins, brute-force counters
  - `config.rs`: configuration, its defaults, overrides and checks
  - `models.rs`, `models/`: targets, users, secrets and their validation
  - `password.rs`, `common.rs`: password rules, generated passwords, shortened keys
  - `target_selector.rs`: the interactive choice of a target and an account
  - `tui.rs`, `table.rs`, `manage.rs`, `editor.rs`, `errors.rs`: the state of the
    administration console (keys, tabs, table paging, rows, column widths, edit forms)
  - `console.rs`, `permission.rs`, `group_editor.rs`, `bind_editor.rs`,
    `grant_role.rs`: what each key press does on the management screen and in its
    editors (permissions, group hierarchies with their cycle check, bindings, roles)
  - `admin_shell.rs`: the administrator's command line
  - `playback.rs`: the controls of the recording player, its viewport, and the
    columns of the list of recordings
  - `viewer.rs`: the column widths of the database viewer
  - `init.rs`: the records a fresh installation starts from (the administrator,
    the reserved names, the login group, and permissions that admit the
    administrator from the loopback networks only)
  - `asciinema.rs`, `asciinema/`: session recording (events, clock, idle limits)
  - `database.rs`: reserved objects and actions, logs, recordings
  - `text.rs`: character-level helpers with their specifications
- `tests/` — tests run against the compiled library
- `app/` — the program: command line, configuration file, logging, and `--init`
