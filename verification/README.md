# clash_service_ipc

The rules of a privileged service that runs a proxy core for one owner at a time,
written in Rust and verified with Verus.

- `src/` is the library. It holds the rules: who may ask for what (`session`,
  `routes`, `requests`, `replies`), what a core may be run from (`paths`, `joins`,
  `assets`, `layout`, `runtime`, `prepare`, `unix_source`, `windows_source`,
  `owner_directory`), how one owner takes the service over from another
  (`takeover`, `owner_start`, `proxy`), and how the service listens, is supervised,
  repaired and removed (`listener`, `supervisor`, `logs`, `repair`,
  `windows_service`, `purge`, `uninstall`). Every item is verified; the few
  functions of other crates that the rules lean on stand in `native`, `session` and
  `text`, each with the contract that is taken on trust.
- `tests/` runs the library on concrete values.
- `app/` is the plumbing around it: sockets, files, processes and locks. A program
  brings what it is called, where it lies and what it manages.

Where a rule alternates with work of the operating system, the library has a state
and a function from state and event to the next state. The program performs what
the state asks for and hands back how it ended. What holds of whole runs (the order
of a takeover, that a rejected runtime leaves nothing behind, that a command is
carried out only for a proved session) is stated in public proof functions beside
those functions.
