//! Lifecycle rules of long-running Codex work, stated and proved with Verus.

pub mod cell;
pub mod daemon_socket;
pub mod dispatch;
pub mod dispatch_laws;
pub mod dispatch_request;
pub mod dispatch_request_laws;
pub mod dispatch_state_laws;
pub mod dispatch_task;
pub mod dispatch_task_laws;
pub mod json;
pub mod live_exec_sessions;
pub mod live_exec_sessions_laws;
pub mod process_wait;
pub mod process_wait_laws;
pub mod session_set;
pub mod text;
pub mod tool;
pub mod turn_host;
pub mod version;
pub mod wait_agent;
pub mod wait_agent_laws;
pub mod wait_process;
