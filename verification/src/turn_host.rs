//! The turn that executes what a code cell asks for.

use vstd::prelude::*;

use crate::cell::CellId;
use crate::text::{blank, is_blank, join_three};

verus! {

/// The name under which the model knows code cells.
pub const PUBLIC_TOOL_NAME: &'static str = "exec";

/// The turn that started a worker, with what it needs to execute tools.
#[derive(Debug)]
pub struct CoreTurnHost<E> {
    pub executor: E,
    /// Whether a tool call is dropped once its cell is closed.
    pub track_completeness: bool,
}

/// The output of a custom tool call that a notification injects into the turn.
#[derive(Debug, PartialEq, Eq)]
pub struct NotificationItem {
    pub id: Option<String>,
    pub call_id: String,
    pub name: Option<String>,
    pub text: String,
}

impl NotificationItem {
    /// The item tells the text under the call of the public tool.
    pub open spec fn tells(self, call_id: Seq<char>, text: Seq<char>) -> bool {
        &&& self.id is None
        &&& self.call_id@ == call_id
        &&& self.name matches Some(name) && name@ == PUBLIC_TOOL_NAME@
        &&& self.text@ == text
    }
}

/// The item that a notification injects. A blank text is not worth one.
pub fn notification_item(call_id: String, text: String) -> (item: Option<NotificationItem>)
    ensures
        item is None <==> blank(text@),
        item matches Some(injected) ==> injected.tells(call_id@, text@),
{
    if is_blank(text.as_str()) {
        None
    } else {
        Some(
            NotificationItem {
                id: None,
                call_id,
                name: Some(PUBLIC_TOOL_NAME.to_owned()),
                text,
            },
        )
    }
}

/// How a notification from `cell_id` ends, by whether a running turn took its item, where it had
/// one: it fails only where there was an item and no turn to take it.
pub fn notification_result(cell_id: &CellId, injected: Option<bool>) -> (result: Result<
    (),
    String,
>)
    ensures
        injected != Some(false) ==> result is Ok,
        injected == Some(false) ==> (result matches Err(message) && message@
            == "failed to inject exec notify message for cell "@ + cell_id@
            + ": no active turn"@),
{
    match injected {
        Some(false) => Err(
            join_three(
                "failed to inject exec notify message for cell ",
                cell_id.as_str(),
                ": no active turn",
            ),
        ),
        _ => Ok(()),
    }
}

/// An item that tells a text under a call has that text and that call, the name of the public
/// tool, and no identity of its own.
pub proof fn law_item_tells_its_text_and_call(
    item: NotificationItem,
    call_id: Seq<char>,
    text: Seq<char>,
)
    ensures
        item.tells(call_id, text) ==> item.text@ == text && item.call_id@ == call_id && item.id is None
            && (item.name matches Some(name) && name@ == "exec"@),
{
}

} // verus!
