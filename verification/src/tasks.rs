//! The task history as the persistent store keeps it.

use vstd::prelude::*;

verus! {

/// How many tasks the history keeps at most.
pub const MAX_HISTORY_ITEMS: i32 = 100;

/// A task of the history.
#[derive(Debug)]
pub struct StoredTask {
    pub id: String,
    pub prompt: String,
    pub summary: Option<String>,
    pub status: String,
    pub messages: Vec<StoredTaskMessage>,
    pub session_id: Option<String>,
    pub created_at: String,
    pub started_at: Option<String>,
    pub completed_at: Option<String>,
}

/// A message of a task of the history.
#[derive(Debug)]
pub struct StoredTaskMessage {
    pub id: String,
    pub msg_type: String,
    pub content: String,
    pub timestamp: String,
    pub tool_name: Option<String>,
    pub tool_input: Option<serde_json::Value>,
    pub attachments: Option<Vec<StoredAttachment>>,
}

/// An attachment of a message of the history.
#[derive(Debug)]
pub struct StoredAttachment {
    pub att_type: String,
    pub data: String,
    pub label: Option<String>,
}

/// A task to save.
#[derive(Debug)]
pub struct TaskInput {
    pub id: String,
    pub prompt: String,
    pub status: String,
    pub messages: Vec<TaskMessageInput>,
    pub session_id: Option<String>,
    pub summary: Option<String>,
    pub created_at: String,
    pub started_at: Option<String>,
    pub completed_at: Option<String>,
}

/// A message to save.
#[derive(Debug)]
pub struct TaskMessageInput {
    pub id: String,
    pub msg_type: String,
    pub content: String,
    pub timestamp: String,
    pub tool_name: Option<String>,
    pub tool_input: Option<serde_json::Value>,
    pub attachments: Option<Vec<AttachmentInput>>,
}

/// An attachment to save.
#[derive(Debug)]
pub struct AttachmentInput {
    pub att_type: String,
    pub data: String,
    pub label: Option<String>,
}

/// The place of the next message of a task, given the highest place taken
/// so far: the first message has place 0. `None` where the places are used
/// up.
pub fn next_sort_order(highest: Option<i32>) -> (r: Option<i32>)
    ensures
        match highest {
            None => r == Some(0i32),
            Some(m) => if m < i32::MAX {
                r == Some((m + 1) as i32)
            } else {
                r is None
            },
        },
{
    match highest {
        None => Some(0),
        Some(m) => if m < i32::MAX {
            Some(m + 1)
        } else {
            None
        },
    }
}

/// The attachments of a message as the history shows them: a message
/// without attachments has none to show, not an empty list.
pub fn attachments_or_none(attachments: Vec<StoredAttachment>) -> (r: Option<Vec<StoredAttachment>>)
    ensures
        attachments@.len() == 0 ==> r is None,
        attachments@.len() > 0 ==> r == Some(attachments),
{
    if attachments.len() == 0 {
        None
    } else {
        Some(attachments)
    }
}

} // verus!
