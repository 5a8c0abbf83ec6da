# soter_system

Soter manages Soterspaces: named Arch root filesystems that a user enters
through Linux namespaces, with their own apps, network mode, integrity
baseline and security tooling.

- `src/` is the library, verified with Verus: the command line and what it
  requests (`cli`), Soterspace names, paths, runtime records and lifecycle
  decisions (`soterspace`, `paths`, `listing`), the session script and the
  namespace command line (`session`), core hashing and the security scan
  (`integrity`), the tool menu and cases (`tooling`), host discovery
  (`discovery`), string helpers (`text`) and the boundary types of the
  remaining subsystems.
- `app/` is the `soter` program: it reads the environment and the disk, runs
  `pacstrap`, `unshare`, `tar`, `nix` and `nmcli`, and hands what it finds to
  the library. Run under the name `sysinfo`, it prints the host report.
- `tests/` runs the library on concrete values.
