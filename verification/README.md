# juky4

The verified core of a small repository runner.

- `src/kernel/classifier` — recognises the project kind from `package.json` contents.
- `src/kernel/ir` — the install/dev/build commands of each project kind.
- `src/kernel/runtime` — backend selection, the launch steps of a project and the report made of their outcomes.
- `src/kernel/pipeline` — classification, planning and selection composed, with the laws that relate them.
- `src/kernel/execution` — execution sessions and the session manager (identifiers, ports, lifecycle).
- `src/text.rs` — substring search and decimal rendering on characters.
- `app/` — file reading, shell commands and process handles, driving the library.
