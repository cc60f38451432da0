# rustdesk_managed

The decisions and computations of a managed-directory client, verified with Verus.

- `src/` is the verified library. It holds no input or output: it builds requests, judges
  answers, moves the state of the enrollment forward, vets updates, keeps the chat store and
  tells local mouse input from injected input.
- `app/` is the ordinary Rust around it: network, disk, threads and the platform.
- `tests/` runs the library with the outside crates linked.

The directory worker (`src/worker.rs`), the update check (`src/managed_update.rs`) and the
service of the message socket (`src/managed_chat.rs`) are state machines: each takes the outcome
of the last action as an event and gives the next action. The loops that perform the actions are
in `app/directory.rs`, `app/update.rs` and `app/chat.rs`.
