//! The failures that the bridge reports to its callers.

use vstd::prelude::*;
use vstd::string::StringExecFns;

verus! {

/// Why an operation of the supervisor failed.
#[derive(Debug)]
pub enum SidecarError {
    /// The worker could not be launched; the text is the launcher's reason.
    Spawn(String),
    /// A command was issued while no worker was attached.
    NotRunning,
    /// A command could not be printed as JSON; the text is the printer's
    /// reason.
    Serialize(String),
    /// The worker's input stream refused the command; the text is the
    /// stream's reason.
    Write(String),
    /// The worker could not be terminated; the text is the reason.
    Kill(String),
}

impl SidecarError {
    /// The text shown to the caller.
    pub open spec fn message_text(self) -> Seq<char> {
        match self {
            SidecarError::Spawn(reason) => "Failed to spawn sidecar: "@ + reason@,
            SidecarError::NotRunning => "Sidecar not running"@,
            SidecarError::Serialize(reason) => "Failed to serialize command: "@ + reason@,
            SidecarError::Write(reason) => "Failed to write to sidecar stdin: "@ + reason@,
            SidecarError::Kill(reason) => "Failed to kill sidecar: "@ + reason@,
        }
    }

    /// The text shown to the caller.
    pub fn message(&self) -> (r: String)
        ensures
            r@ == self.message_text(),
    {
        match self {
            SidecarError::Spawn(reason) => String::from_str("Failed to spawn sidecar: ").concat(
                reason.as_str(),
            ),
            SidecarError::NotRunning => String::from_str("Sidecar not running"),
            SidecarError::Serialize(reason) => String::from_str(
                "Failed to serialize command: ",
            ).concat(reason.as_str()),
            SidecarError::Write(reason) => String::from_str(
                "Failed to write to sidecar stdin: ",
            ).concat(reason.as_str()),
            SidecarError::Kill(reason) => String::from_str("Failed to kill sidecar: ").concat(
                reason.as_str(),
            ),
        }
    }
}

/// Why a line of worker output is not an event.
#[derive(Debug, Clone, Copy, PartialEq, Eq, Structural)]
pub enum DecodeError {
    /// The line is not a JSON document.
    InvalidJson,
    /// The document is not an object with a member `type` that is a text.
    MissingType,
    /// The member `taskId` is neither absent, nor null, nor a text.
    InvalidTaskId,
}

/// Why a line of worker output led to no emission.
#[derive(Debug)]
pub enum DropReason {
    /// The line is not an event.
    Undecodable(DecodeError),
    /// The line is an event of a type that the table of topics does not
    /// hold; the text is that type.
    UnknownEventType(String),
}

/// The mathematical model of a reason to drop a line.
pub ghost enum DropModel {
    Undecodable(DecodeError),
    UnknownEventType(Seq<char>),
}

impl View for DropReason {
    type V = DropModel;

    open spec fn view(&self) -> DropModel {
        match self {
            DropReason::Undecodable(e) => DropModel::Undecodable(*e),
            DropReason::UnknownEventType(event_type) => DropModel::UnknownEventType(event_type@),
        }
    }
}

} // verus!
