# codex_lifecycle

Lifecycle rules of long-running Codex work: which exec sessions a code cell still reports, which
turn executes what a cell asks for, how a wait for a process or for other agents ends, and which
app-server daemon a build connects to.

The rules are a Verus library. Each function states in its contract what it returns or changes,
and the laws that span several functions are public proof functions.

| Path | Contents |
| --- | --- |
| `src/live_exec_sessions.rs`, `src/session_set.rs` | the registry of live exec sessions |
| `src/dispatch.rs`, `src/turn_host.rs` | open cells, turns and workers |
| `src/dispatch_task.rs`, `src/dispatch_request.rs` | one message of a cell, as the dispatcher and as the cell see it |
| `src/process_wait.rs`, `src/wait_process.rs` | the wait for a process and its tool |
| `src/wait_agent.rs` | the wait for other agents |
| `src/version.rs`, `src/daemon_socket.rs` | the version of the build and the daemon probe |
| `src/cell.rs`, `src/tool.rs`, `src/text.rs`, `src/json.rs` | what the others share |
| `src/*_laws.rs` | what holds across calls and events |
| `tests/` | the library on concrete values |
| `app/` | locks, channels, timers and JSON around the library |

Waits and messages are state machines: the library says what is to be done next and takes in what
was seen, and `app/` performs it.

Trusted without proof are `serde_json::Value::get` with `as_i64` (`src/json.rs`), `str::trim`
(`src/text.rs`) and `Arc::clone` (`src/dispatch.rs`). Their contracts say what is claimed of each.
