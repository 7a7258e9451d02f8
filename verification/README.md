# pikman_update_manager

The decisions of the PikaOS update manager — which apt packages an upgrade touches,
what the confirmation dialogs add up, what the progress sockets carry, how apt sources and
flatpak remotes are edited — as a library verified with Verus.

- `src/` is the verified library. Each module states its behaviour in `requires` /
  `ensures` contracts over spec functions; the laws that relate several functions are public
  proof functions named `law_*`.
- Calls into outside crates (`strfmt`, `configparser`, `regex`) and a few std functions
  go through small trusted wrappers whose contracts name what the outside code returns.
- `app/` is the command-line shell around the library: the privileged apt helpers (through
  rust-apt), the Unix socket tools, the exclusions file (through serde_json) and the
  `pkexec` / `flatpak` commands.
- `tests/` runs the library on concrete values.
