# spec_manager

Declarative management of system configuration files. The services' settings are read from
TOML files under the configuration directory's `services/` folder; each section names a
service (`sshd`, `ssh_system`, `systemd_user`, `udev`, `sddm`, ...). For each one the
library computes a plan: the configuration files to write (path, text, permissions, owner)
and the systemd units to reload, start, stop, enable or disable. The `spec` command applies
the plan, records each run in a small database, removes the files a previous run managed
that the current one no longer does, and can roll back to the previous run or report files
that were modified by hand.

## Layout

- `src/` is the library, verified with Verus: the configuration tables and their merge, the
  writers of key-value, INI, unit and sudoers files, each service's plan, the decisions of the
  `run`, `rollback` and `verify` commands, and the stored form of a run.
- `app/` is the program around it: the command line, reading the configuration and the
  system, prompts, running commands, installing files and the runs database.
- `tests/` holds the tests of the library.
