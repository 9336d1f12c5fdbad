# scaffold

Scaffolding of infrastructure-as-code projects for Solana programs, verified with Verus.

- `src/framework.rs` decides which program framework a project uses.
- `src/templates.rs` lists the pieces of a runbook that are written from templates.
- `src/in_memory.rs` puts a deployment together without writing a file.
- `src/layout.rs` says how the scaffold of a project on disk goes, event by event, and
  `src/machine.rs` runs it. `src/laws.rs` states what holds of every run, and `src/reruns.rs` what
  holds of a project that is scaffolded again.
- `src/manifest.rs`, `src/environments.rs` and `src/location.rs` hold what a scaffold reads and
  writes. They declare what is believed of `txtx-core`, `indexmap` and `mustache`.
- `src/dev_skill.rs` decides whether the `solana-dev` skill gets installed.

`app/` reads and writes the files, asks the questions and starts the installer. Its module `svm`
needs the crate `txtx-addon-network-svm`.
