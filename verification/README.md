# pact

Promise-based configuration management for HPC/AI nodes: the node agent's
shell and exec policy, supervision decisions, token checks and diagnostics,
and the command-line client's requests and displays.

The library in `src/` is verified with Verus; every public function states
what it returns in its `ensures`, and the laws that relate several functions
are public proof functions (`law_*`).

- `src/common/`: shared types, configuration, node management errors,
  overlay checksums and the UID/GID identity mapping.
- `src/agent/`: the agent's whitelist, authentication, exec and shell
  protocol, sessions, diagnostics, supervision and config subscription.
- `src/cli/`: what the CLI sends to the journal, the scheduler and the node
  management backends, and how it shows their answers.
- `src/text.rs`, `src/keyed.rs`: string building and keyed-table helpers
  with their lemmas.
- `tests/`: tests of the library.
- `app/`: the command-line program: arguments, configuration file and
  environment, HTTP calls, token signature checks, process spawning, and
  the quantities reported as floating-point numbers.
