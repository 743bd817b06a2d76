# gitsync

A daemon that mirrors every repository of a GitHub or GitLab account to local
disk (`[local path]/[owner]/[repo]`), with a small web dashboard.

- `src/` is the verified library:
  - `config.rs`: profiles, web access tokens, the `config` and `token`
    commands, the migration of the pre-profile configuration format;
  - `paths.rs`: where the configuration, PID and log files live;
  - `state.rs`: per-profile sync status, repository status, the bounded log;
  - `sync.rs`: the decisions of a sync cycle (which profile, which source,
    which repositories, in which order, which git steps), what it records,
    and the error texts of the provider requests;
  - `daemon.rs`: the status and stop procedures as state machines;
  - `laws.rs`: properties across operations;
  - `text.rs`: string helpers (trimming, decimal and hexadecimal text).
- `app/` is the program: command line, files, HTTP, git processes, the web
  server, and the serializable copies of the library's types.
- `tests/` exercises the library on concrete values.
