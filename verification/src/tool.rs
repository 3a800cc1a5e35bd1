//! What tools are called with and how they fail.

use vstd::prelude::*;

verus! {

/// Why the input queue woke a waiting tool.
#[derive(Clone, Copy, Debug, PartialEq, Eq, Structural)]
pub enum InputQueueActivity {
    /// A message arrived in the mailbox.
    Mailbox,
    /// New input steers the turn.
    Steer,
}

/// How a tool call fails.
#[derive(Debug, PartialEq, Eq)]
pub enum FunctionCallError {
    /// The model reads the message and goes on.
    RespondToModel(String),
    /// The turn cannot go on.
    Fatal(String),
}

/// What a tool is called with.
#[derive(Debug, PartialEq, Eq)]
pub enum ToolPayload {
    /// A function call with its arguments as JSON text.
    Function { arguments: String },
    /// Any other kind of call.
    Other,
}

impl ToolPayload {
    /// Whether this is a function call.
    pub fn is_function(&self) -> (function: bool)
        ensures
            function == (self is Function),
    {
        match self {
            ToolPayload::Function { .. } => true,
            ToolPayload::Other => false,
        }
    }
}

} // verus!
