//! Deleting: a file and its records go together, the file first.

use crate::protocol::{
    fail, failed, Action, ActionView, Event, EventView, Failure, Reply, ReplyView, StoreStage,
};
use vstd::prelude::*;
use vstd::string::StringExecFns;

verus! {

/// State of a delete request: what its last action asked for.
#[derive(Debug, PartialEq, Eq)]
pub enum Removal {
    /// Whether the file is there.
    Probing { file_path: String },
    /// The file to be deleted.
    Removing { file_path: String },
    /// The records of the file to be deleted.
    Purging,
    /// Nothing: the request was answered.
    Closed,
}

/// Mathematical value of a [`Removal`].
pub enum RemovalView {
    Probing { file_path: Seq<char> },
    Removing { file_path: Seq<char> },
    Purging,
    Closed,
}

impl View for Removal {
    type V = RemovalView;

    open spec fn view(&self) -> RemovalView {
        match self {
            Removal::Probing { file_path } => RemovalView::Probing { file_path: file_path@ },
            Removal::Removing { file_path } => RemovalView::Removing { file_path: file_path@ },
            Removal::Purging => RemovalView::Purging,
            Removal::Closed => RemovalView::Closed,
        }
    }
}

/// Deleting the file named `file_path` and its records.
pub open spec fn delete_open(file_path: Seq<char>) -> (RemovalView, ActionView) {
    (RemovalView::Probing { file_path }, ActionView::CheckFile { file_path })
}

/// The delete request is over with a failure.
pub open spec fn removal_abort(failure: Failure, message: Seq<char>) -> (RemovalView, ActionView) {
    (RemovalView::Closed, failed(failure, message))
}

/// How a failure of the store is told to the caller of a delete request.
pub open spec fn purge_fault(stage: StoreStage) -> Seq<char> {
    if stage == StoreStage::Lock {
        "Failed to lock database"@
    } else {
        "Failed to delete track from database"@
    }
}

/// The answer to a delete request that went through.
pub open spec fn deleted_reply() -> ReplyView {
    ReplyView::Deleted { message: "File and record deleted successfully"@ }
}

/// One step of a delete request: the state after `e` and what to do next.
///
/// - A file that is not in the upload directory is not found, and the store
///   is left alone.
/// - Otherwise the file is deleted first. If that fails the request ends
///   with a server error, and the store is left alone.
/// - Then every record of the file is deleted. If that fails the request
///   ends with a server error, though the file is gone.
pub open spec fn removal_step(s: RemovalView, e: EventView) -> (RemovalView, ActionView) {
    match s {
        RemovalView::Probing { file_path } => match e {
            EventView::FileExists { exists } => if exists {
                (RemovalView::Removing { file_path }, ActionView::RemoveFile { file_path })
            } else {
                removal_abort(Failure::NotFound, "File not found"@)
            },
            _ => removal_abort(Failure::Protocol, "Unexpected event"@),
        },
        RemovalView::Removing { file_path } => match e {
            EventView::FileRemoved => (
                RemovalView::Purging,
                ActionView::DeleteByPath { file_path },
            ),
            EventView::IoFailed { .. } => removal_abort(Failure::Io, "Failed to delete file"@),
            _ => removal_abort(Failure::Protocol, "Unexpected event"@),
        },
        RemovalView::Purging => match e {
            EventView::RowsDeleted => (
                RemovalView::Closed,
                ActionView::Respond { reply: deleted_reply() },
            ),
            EventView::StoreFailed { stage, .. } => removal_abort(
                Failure::Store,
                purge_fault(stage),
            ),
            _ => removal_abort(Failure::Protocol, "Unexpected event"@),
        },
        RemovalView::Closed => removal_abort(Failure::Protocol, "Unexpected event"@),
    }
}

fn abort(failure: Failure, message: &str) -> (next: (Removal, Action))
    ensures
        (next.0@, next.1@) == removal_abort(failure, message@),
{
    (Removal::Closed, fail(failure, String::from_str(message)))
}

fn stray() -> (next: (Removal, Action))
    ensures
        (next.0@, next.1@) == removal_abort(Failure::Protocol, "Unexpected event"@),
{
    abort(Failure::Protocol, "Unexpected event")
}

impl Removal {
    /// Deletes a file and its records.
    pub fn delete_audio(file_path: String) -> (start: (Removal, Action))
        ensures
            (start.0@, start.1@) == delete_open(file_path@),
    {
        let probed = file_path.clone();
        (Removal::Probing { file_path }, Action::CheckFile { file_path: probed })
    }

    /// Takes what the host reports and says what to do next.
    pub fn step(self, event: Event) -> (next: (Removal, Action))
        ensures
            (next.0@, next.1@) == removal_step(self@, event@),
    {
        match self {
            Removal::Probing { file_path } => match event {
                Event::FileExists { exists } => if exists {
                    let doomed = file_path.clone();
                    (Removal::Removing { file_path }, Action::RemoveFile { file_path: doomed })
                } else {
                    abort(Failure::NotFound, "File not found")
                },
                _ => stray(),
            },
            Removal::Removing { file_path } => match event {
                Event::FileRemoved => (Removal::Purging, Action::DeleteByPath { file_path }),
                Event::IoFailed { detail: _ } => abort(Failure::Io, "Failed to delete file"),
                _ => stray(),
            },
            Removal::Purging => match event {
                Event::RowsDeleted => (
                    Removal::Closed,
                    Action::Respond {
                        reply: Reply::Deleted {
                            message: String::from_str("File and record deleted successfully"),
                        },
                    },
                ),
                Event::StoreFailed { stage, detail: _ } => match stage {
                    StoreStage::Lock => abort(Failure::Store, "Failed to lock database"),
                    _ => abort(Failure::Store, "Failed to delete track from database"),
                },
                _ => stray(),
            },
            Removal::Closed => stray(),
        }
    }
}

} // verus!
