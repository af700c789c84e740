//! Plain parts of the typed thread events: statuses named by snake_case labels (any other
//! label is `Unknown`), text payloads and the item envelope.

use vstd::prelude::*;

verus! {

/// Item status supplied by the CLI for bookkeeping.
#[derive(Clone, Copy, Debug, PartialEq, Eq, Structural)]
pub enum ItemStatus {
    InProgress,
    Completed,
    Failed,
    Unknown,
}

pub open spec fn item_status_for(label: Seq<char>) -> ItemStatus {
    if label == "in_progress"@ {
        ItemStatus::InProgress
    } else if label == "completed"@ {
        ItemStatus::Completed
    } else if label == "failed"@ {
        ItemStatus::Failed
    } else {
        ItemStatus::Unknown
    }
}

fn same(a: &str, b: &str) -> (r: bool)
    ensures
        r == (a@ == b@),
{
    let x = crate::text::chars_of(a);
    let y = crate::text::chars_of(b);
    crate::text::eq_chars(x.as_slice(), y.as_slice())
}

impl ItemStatus {
    /// The status a label names.
    pub fn from_label(label: &str) -> (r: ItemStatus)
        ensures
            r == item_status_for(label@),
    {
        if same(label, "in_progress") {
            ItemStatus::InProgress
        } else if same(label, "completed") {
            ItemStatus::Completed
        } else if same(label, "failed") {
            ItemStatus::Failed
        } else {
            ItemStatus::Unknown
        }
    }
}

impl Default for ItemStatus {
    fn default() -> (r: Self)
        ensures
            r == ItemStatus::InProgress,
    {
        ItemStatus::InProgress
    }
}

/// Type of file operation being reported.
#[derive(Clone, Copy, Debug, PartialEq, Eq, Structural)]
pub enum FileChangeKind {
    Apply,
    Diff,
    Unknown,
}

pub open spec fn file_change_kind_for(label: Seq<char>) -> FileChangeKind {
    if label == "apply"@ {
        FileChangeKind::Apply
    } else if label == "diff"@ {
        FileChangeKind::Diff
    } else {
        FileChangeKind::Unknown
    }
}

impl FileChangeKind {
    /// The kind a label names.
    pub fn from_label(label: &str) -> (r: FileChangeKind)
        ensures
            r == file_change_kind_for(label@),
    {
        if same(label, "apply") {
            FileChangeKind::Apply
        } else if same(label, "diff") {
            FileChangeKind::Diff
        } else {
            FileChangeKind::Unknown
        }
    }
}

/// Lifecycle state for a tool call.
#[derive(Clone, Copy, Debug, PartialEq, Eq, Structural)]
pub enum ToolCallStatus {
    Pending,
    Running,
    Completed,
    Failed,
    Unknown,
}

pub open spec fn tool_call_status_for(label: Seq<char>) -> ToolCallStatus {
    if label == "pending"@ {
        ToolCallStatus::Pending
    } else if label == "running"@ {
        ToolCallStatus::Running
    } else if label == "completed"@ {
        ToolCallStatus::Completed
    } else if label == "failed"@ {
        ToolCallStatus::Failed
    } else {
        ToolCallStatus::Unknown
    }
}

impl ToolCallStatus {
    /// The status a label names.
    pub fn from_label(label: &str) -> (r: ToolCallStatus)
        ensures
            r == tool_call_status_for(label@),
    {
        if same(label, "pending") {
            ToolCallStatus::Pending
        } else if same(label, "running") {
            ToolCallStatus::Running
        } else if same(label, "completed") {
            ToolCallStatus::Completed
        } else if same(label, "failed") {
            ToolCallStatus::Failed
        } else {
            ToolCallStatus::Unknown
        }
    }
}

impl Default for ToolCallStatus {
    fn default() -> (r: Self)
        ensures
            r == ToolCallStatus::Pending,
    {
        ToolCallStatus::Pending
    }
}

/// Search progress indicator.
#[derive(Clone, Copy, Debug, PartialEq, Eq, Structural)]
pub enum WebSearchStatus {
    Pending,
    Running,
    Completed,
    Failed,
    Unknown,
}

pub open spec fn web_search_status_for(label: Seq<char>) -> WebSearchStatus {
    if label == "pending"@ {
        WebSearchStatus::Pending
    } else if label == "running"@ {
        WebSearchStatus::Running
    } else if label == "completed"@ {
        WebSearchStatus::Completed
    } else if label == "failed"@ {
        WebSearchStatus::Failed
    } else {
        WebSearchStatus::Unknown
    }
}

impl WebSearchStatus {
    /// The status a label names.
    pub fn from_label(label: &str) -> (r: WebSearchStatus)
        ensures
            r == web_search_status_for(label@),
    {
        if same(label, "pending") {
            WebSearchStatus::Pending
        } else if same(label, "running") {
            WebSearchStatus::Running
        } else if same(label, "completed") {
            WebSearchStatus::Completed
        } else if same(label, "failed") {
            WebSearchStatus::Failed
        } else {
            WebSearchStatus::Unknown
        }
    }
}

impl Default for WebSearchStatus {
    fn default() -> (r: Self)
        ensures
            r == WebSearchStatus::Pending,
    {
        WebSearchStatus::Pending
    }
}

/// Human-readable content emitted by the agent.
#[derive(Debug)]
pub struct TextContent {
    pub text: String,
}

/// Incremental content fragment for streaming items.
#[derive(Debug)]
pub struct TextDelta {
    pub text_delta: String,
}

/// Shared wrapper for item events that always include thread/turn context.
#[derive(Debug)]
pub struct ItemEnvelope<T> {
    pub thread_id: String,
    pub turn_id: String,
    pub item: T,
}

} // verus!
