//! Progress events and the status lines that carry them to the reporter.

use vstd::prelude::*;
use vstd::string::StringExecFns;
use crate::text::{decimal, owned, push_decimal};

verus! {

/// Why a file was passed over.
#[derive(Clone, Copy, Debug, PartialEq, Eq, Structural)]
pub enum SkipReason {
    /// The source was gone when its turn came.
    FileNotFound,
    /// The destination holds a file of the same name.
    AlreadyExists,
}

impl SkipReason {
    /// The words for the reason.
    pub open spec fn text(self) -> Seq<char> {
        match self {
            SkipReason::FileNotFound => "file not found"@,
            SkipReason::AlreadyExists => "already exists"@,
        }
    }

    /// The words for the reason.
    pub fn as_str(self) -> (r: &'static str)
        ensures
            r@ == self.text(),
    {
        match self {
            SkipReason::FileNotFound => "file not found",
            SkipReason::AlreadyExists => "already exists",
        }
    }
}

/// One unit of status that a copy pushes to the reporter.
#[derive(Debug, PartialEq, Eq)]
#[allow(inconsistent_fields)]
pub enum ProgressEvent {
    /// The file was passed over.
    Skipped { name: String, reason: SkipReason },
    /// The copy of the file begins.
    Copying { name: String },
    /// The file was copied.
    Copied { name: String },
    /// The copy of the file failed.
    Failed { name: String, reason: String },
    /// So many bytes of the batch are settled, of so many in all.
    ByteProgress { copied: u64, total: u64 },
}

/// A `ProgressEvent` with its texts as characters and its counts as numbers.
#[allow(inconsistent_fields)]
pub enum EventView {
    Skipped { name: Seq<char>, reason: SkipReason },
    Copying { name: Seq<char> },
    Copied { name: Seq<char> },
    Failed { name: Seq<char>, reason: Seq<char> },
    ByteProgress { copied: nat, total: nat },
}

impl View for ProgressEvent {
    type V = EventView;

    open spec fn view(&self) -> EventView {
        match self {
            ProgressEvent::Skipped { name, reason } => EventView::Skipped {
                name: name@,
                reason: *reason,
            },
            ProgressEvent::Copying { name } => EventView::Copying { name: name@ },
            ProgressEvent::Copied { name } => EventView::Copied { name: name@ },
            ProgressEvent::Failed { name, reason } => EventView::Failed {
                name: name@,
                reason: reason@,
            },
            ProgressEvent::ByteProgress { copied, total } => EventView::ByteProgress {
                copied: *copied as nat,
                total: *total as nat,
            },
        }
    }
}

impl EventView {
    /// The status line of the event. The line of `ByteProgress` is made to
    /// be read by a program; the others are for people.
    pub open spec fn message(self) -> Seq<char> {
        match self {
            EventView::Skipped { name, reason } => "Skipped: "@ + name + " ("@ + reason.text()
                + ")"@,
            EventView::Copying { name } => "Copying: "@ + name,
            EventView::Copied { name } => "Copied: "@ + name,
            EventView::Failed { name, reason } => "Failed to copy "@ + name + ": "@ + reason,
            EventView::ByteProgress { copied, total } => "PROGRESS_BYTES:"@ + decimal(copied)
                + ":"@ + decimal(total),
        }
    }
}

/// The status line that tells how many files of a whole-directory import
/// are done: `index` of `count`.
pub open spec fn count_progress_text(index: nat, count: nat) -> Seq<char> {
    "PROGRESS:"@ + decimal(index) + ":"@ + decimal(count)
}

impl ProgressEvent {
    /// The status line of the event.
    pub fn message(&self) -> (r: String)
        ensures
            r@ == self@.message(),
    {
        match self {
            ProgressEvent::Skipped { name, reason } => {
                let mut out = owned("Skipped: ");
                out.append(name.as_str());
                out.append(" (");
                out.append(reason.as_str());
                out.append(")");
                out
            },
            ProgressEvent::Copying { name } => {
                let mut out = owned("Copying: ");
                out.append(name.as_str());
                out
            },
            ProgressEvent::Copied { name } => {
                let mut out = owned("Copied: ");
                out.append(name.as_str());
                out
            },
            ProgressEvent::Failed { name, reason } => {
                let mut out = owned("Failed to copy ");
                out.append(name.as_str());
                out.append(": ");
                out.append(reason.as_str());
                out
            },
            ProgressEvent::ByteProgress { copied, total } => {
                let mut out = owned("PROGRESS_BYTES:");
                push_decimal(&mut out, *copied);
                out.append(":");
                push_decimal(&mut out, *total);
                out
            },
        }
    }
}

/// The status line that tells how many files of a whole-directory import
/// are done.
pub fn count_progress_message(index: u64, count: u64) -> (r: String)
    ensures
        r@ == count_progress_text(index as nat, count as nat),
{
    let mut out = owned("PROGRESS:");
    push_decimal(&mut out, index);
    out.append(":");
    push_decimal(&mut out, count);
    out
}

} // verus!
