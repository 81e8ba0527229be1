//! The two sweeps of the store: of the files that have expired, and of the
//! entries of the blob directory that belong to no live file.

use vstd::prelude::*;
use crate::datalith_errors::DatalithReadError;
use crate::datalith_errors::IoErrorKind;
use crate::datalith_errors::SqlErrorKind;
use crate::delete_file::DeleteFile;
use crate::guard::GuardRequest;
use crate::guard::GuardRequestView;
use crate::operation::Operation;
use crate::step::entries_view;
use crate::step::Directory;
use crate::step::DirectoryEntry;
use crate::step::DirectoryEntryView;
use crate::step::EntryKind;
use crate::step::FileOperation;
use crate::step::FileOperationView;
use crate::step::Passed;
use crate::step::Reply;
use crate::step::ReplyView;
use crate::step::Statement;
use crate::step::StatementView;
use crate::step::Step;
use crate::step::StepView;
use crate::step::POLL_INTERVAL_MS;
use crate::text::parse_hex32;
use crate::text::parse_hex32_spec;

verus! {

/// One more, as far as the size of the machine holds it.
pub open spec fn one_more(n: usize) -> usize {
    if n < usize::MAX {
        (n + 1) as usize
    } else {
        n
    }
}

fn increment(n: usize) -> (r: usize)
    ensures
        r == one_more(n),
{
    if n < usize::MAX {
        n + 1
    } else {
        n
    }
}

/// The result of a sweep, and the request that a sweep waits on.
pub type SweepStep = StepView<Result<usize, DatalithReadError>>;

/// The sweep of the expired files. The files whose expiry has passed are
/// selected; of each, the resources that name it are deleted and then the
/// file itself, as any file is deleted. A delete that has waited for as long
/// as the time limit allows is given up. The result is the number of files
/// deleted.
pub enum ClearExpired {
    /// Asked for the expired files.
    Selecting { pauses: u64 },
    /// Asked to delete the resources that name a file.
    Detaching { ids: Vec<u128>, index: usize, removed: usize, pauses: u64 },
    /// A file is being deleted.
    Deleting {
        ids: Vec<u128>,
        index: usize,
        removed: usize,
        pauses: u64,
        delete: DeleteFile,
        left: u64,
    },
    /// Asked to take a file out of the set of files being deleted, its delete
    /// given up.
    Abandoning { ids: Vec<u128>, index: usize, removed: usize, pauses: u64 },
    /// Ended.
    Finished,
}

/// The mathematical value of the state of a sweep of the expired files.
pub enum ClearExpiredView {
    Selecting { pauses: u64 },
    Detaching { ids: Seq<u128>, index: usize, removed: usize, pauses: u64 },
    Deleting {
        ids: Seq<u128>,
        index: usize,
        removed: usize,
        pauses: u64,
        delete: DeleteFile,
        left: u64,
    },
    Abandoning { ids: Seq<u128>, index: usize, removed: usize, pauses: u64 },
    Finished,
}

impl View for ClearExpired {
    type V = ClearExpiredView;

    open spec fn view(&self) -> ClearExpiredView {
        match *self {
            ClearExpired::Selecting { pauses } => ClearExpiredView::Selecting { pauses },
            ClearExpired::Detaching { ids, index, removed, pauses } => ClearExpiredView::Detaching {
                ids: ids@,
                index,
                removed,
                pauses,
            },
            ClearExpired::Deleting { ids, index, removed, pauses, delete, left } => {
                ClearExpiredView::Deleting { ids: ids@, index, removed, pauses, delete, left }
            },
            ClearExpired::Abandoning { ids, index, removed, pauses } => {
                ClearExpiredView::Abandoning { ids: ids@, index, removed, pauses }
            },
            ClearExpired::Finished => ClearExpiredView::Finished,
        }
    }
}

impl ClearExpiredView {
    /// The first state and request of a sweep at `now`, each delete waiting
    /// for at most `timeout_ms` milliseconds.
    pub open spec fn begin(now: i64, timeout_ms: u64) -> (ClearExpiredView, SweepStep) {
        (
            ClearExpiredView::Selecting { pauses: timeout_ms / POLL_INTERVAL_MS },
            StepView::Query(StatementView::SelectExpiredFileIds { now }),
        )
    }

    /// The state and the request with which the sweep turns to the file at
    /// `index`, or ends where there is none.
    pub open spec fn visit(ids: Seq<u128>, index: usize, removed: usize, pauses: u64) -> (
        ClearExpiredView,
        SweepStep,
    ) {
        if index < ids.len() {
            (
                ClearExpiredView::Detaching { ids, index, removed, pauses },
                StepView::Query(
                    StatementView::DeleteResourcesOfFile { file_id: ids[index as int] },
                ),
            )
        } else {
            (ClearExpiredView::Finished, StepView::Finish(Ok(removed)))
        }
    }

    /// The state and the request that follow a state and the reply to its
    /// request.
    pub open spec fn advance(self, reply: ReplyView) -> (ClearExpiredView, SweepStep) {
        match self {
            ClearExpiredView::Selecting { pauses } => match reply {
                ReplyView::Ids(ids) => ClearExpiredView::visit(ids, 0, 0, pauses),
                ReplyView::SqlFailed(kind) => (
                    ClearExpiredView::Finished,
                    StepView::Finish(Err(DatalithReadError::SQLError(kind))),
                ),
                _ => (
                    ClearExpiredView::Finished,
                    StepView::Finish(Err(DatalithReadError::SQLError(SqlErrorKind::Other))),
                ),
            },
            ClearExpiredView::Detaching { ids, index, removed, pauses } => match reply {
                ReplyView::Affected(_) => if index < ids.len() {
                    let (delete, step) = DeleteFile::begin_spec(ids[index as int]);
                    (
                        ClearExpiredView::Deleting {
                            ids,
                            index,
                            removed,
                            pauses,
                            delete,
                            left: pauses,
                        },
                        step.pass(),
                    )
                } else {
                    (ClearExpiredView::Finished, StepView::Finish(Ok(removed)))
                },
                _ => ClearExpiredView::visit(ids, one_more(index), removed, pauses),
            },
            ClearExpiredView::Deleting { ids, index, removed, pauses, delete, left } => {
                let (next, step) = DeleteFile::advance(delete, reply);
                match step {
                    StepView::Finish(Ok(true)) => ClearExpiredView::visit(
                        ids,
                        one_more(index),
                        one_more(removed),
                        pauses,
                    ),
                    StepView::Finish(_) => ClearExpiredView::visit(
                        ids,
                        one_more(index),
                        removed,
                        pauses,
                    ),
                    StepView::Pause => if left == 0 {
                        match next {
                            DeleteFile::PausingForReaders { id } => (
                                ClearExpiredView::Abandoning { ids, index, removed, pauses },
                                StepView::Guard(GuardRequestView::ReleaseDelete(id)),
                            ),
                            _ => ClearExpiredView::visit(ids, one_more(index), removed, pauses),
                        }
                    } else {
                        (
                            ClearExpiredView::Deleting {
                                ids,
                                index,
                                removed,
                                pauses,
                                delete: next,
                                left: (left - 1) as u64,
                            },
                            StepView::Pause,
                        )
                    },
                    _ => (
                        ClearExpiredView::Deleting {
                            ids,
                            index,
                            removed,
                            pauses,
                            delete: next,
                            left,
                        },
                        step.pass(),
                    ),
                }
            },
            ClearExpiredView::Abandoning { ids, index, removed, pauses } => ClearExpiredView::visit(
                ids,
                one_more(index),
                removed,
                pauses,
            ),
            ClearExpiredView::Finished => (
                ClearExpiredView::Finished,
                StepView::Finish(Err(DatalithReadError::IOError(IoErrorKind::Other))),
            ),
        }
    }
}

/// A state of a sweep of the expired files and the request it waits on.
pub type ClearExpiredNext = (ClearExpired, Step<Result<usize, DatalithReadError>>);

/// Whether a state and a request have the given mathematical values.
pub open spec fn clear_expired_turn_is(
    next: ClearExpiredNext,
    turn: (ClearExpiredView, SweepStep),
) -> bool {
    &&& next.0@ == turn.0
    &&& next.1.view_with(|o| o) == turn.1
}

fn visit_expired(ids: Vec<u128>, index: usize, removed: usize, pauses: u64) -> (r: ClearExpiredNext)
    ensures
        clear_expired_turn_is(r, ClearExpiredView::visit(ids@, index, removed, pauses)),
{
    if index < ids.len() {
        let file_id = ids[index];
        (
            ClearExpired::Detaching { ids, index, removed, pauses },
            Step::Query(Statement::DeleteResourcesOfFile { file_id }),
        )
    } else {
        (ClearExpired::Finished, Step::Finish(Ok(removed)))
    }
}

impl ClearExpired {
    /// Begins a sweep of the files that have expired at `now`, each delete
    /// waiting for at most `timeout_ms` milliseconds.
    pub fn begin(now: i64, timeout_ms: u64) -> (r: ClearExpiredNext)
        ensures
            clear_expired_turn_is(r, ClearExpiredView::begin(now, timeout_ms)),
    {
        (
            ClearExpired::Selecting { pauses: timeout_ms / POLL_INTERVAL_MS },
            Step::Query(Statement::SelectExpiredFileIds { now }),
        )
    }
}

impl Operation for ClearExpired {
    type Output = Result<usize, DatalithReadError>;

    type OutputView = Result<usize, DatalithReadError>;

    open spec fn output_view(output: Self::Output) -> Self::OutputView {
        output
    }

    open spec fn advance(state: ClearExpiredView, reply: ReplyView) -> (
        ClearExpiredView,
        SweepStep,
    ) {
        state.advance(reply)
    }

    fn resume(self, reply: Reply) -> (r: ClearExpiredNext) {
        match self {
            ClearExpired::Selecting { pauses } => match reply {
                Reply::Ids(ids) => visit_expired(ids, 0, 0, pauses),
                Reply::SqlFailed(kind) => (
                    ClearExpired::Finished,
                    Step::Finish(Err(DatalithReadError::SQLError(kind))),
                ),
                _ => (
                    ClearExpired::Finished,
                    Step::Finish(Err(DatalithReadError::SQLError(SqlErrorKind::Other))),
                ),
            },
            ClearExpired::Detaching { ids, index, removed, pauses } => match reply {
                Reply::Affected(_) => if index < ids.len() {
                    let (delete, step) = DeleteFile::begin(ids[index]);
                    match step.pass() {
                        Passed::Request(step) => (
                            ClearExpired::Deleting {
                                ids,
                                index,
                                removed,
                                pauses,
                                delete,
                                left: pauses,
                            },
                            step,
                        ),
                        Passed::Ended(_) => (ClearExpired::Finished, Step::Finish(Ok(removed))),
                    }
                } else {
                    (ClearExpired::Finished, Step::Finish(Ok(removed)))
                },
                _ => visit_expired(ids, increment(index), removed, pauses),
            },
            ClearExpired::Deleting { ids, index, removed, pauses, delete, left } => {
                let (next, step) = delete.resume(reply);
                match step {
                    Step::Finish(Ok(true)) => visit_expired(
                        ids,
                        increment(index),
                        increment(removed),
                        pauses,
                    ),
                    Step::Finish(_) => visit_expired(ids, increment(index), removed, pauses),
                    Step::Pause => if left == 0 {
                        match next {
                            DeleteFile::PausingForReaders { id } => (
                                ClearExpired::Abandoning { ids, index, removed, pauses },
                                Step::Guard(GuardRequest::ReleaseDelete(id)),
                            ),
                            _ => visit_expired(ids, increment(index), removed, pauses),
                        }
                    } else {
                        (
                            ClearExpired::Deleting {
                                ids,
                                index,
                                removed,
                                pauses,
                                delete: next,
                                left: left - 1,
                            },
                            Step::Pause,
                        )
                    },
                    other => match other.pass() {
                        Passed::Request(step) => (
                            ClearExpired::Deleting {
                                ids,
                                index,
                                removed,
                                pauses,
                                delete: next,
                                left,
                            },
                            step,
                        ),
                        Passed::Ended(_) => visit_expired(ids, increment(index), removed, pauses),
                    },
                }
            },
            ClearExpired::Abandoning { ids, index, removed, pauses } => visit_expired(
                ids,
                increment(index),
                removed,
                pauses,
            ),
            ClearExpired::Finished => (
                ClearExpired::Finished,
                Step::Finish(Err(DatalithReadError::IOError(IoErrorKind::Other))),
            ),
        }
    }
}

/// The sweep of the blob directory. Every entry is removed that is a
/// directory or a link, or whose name is not the name of a blob, or that is
/// the blob of no live file, unless a reader pins that file. The result is the
/// number of entries removed.
pub enum ClearUntracked {
    /// Asked to make sure of the directory of blobs.
    Preparing,
    /// Asked for the entries of the directory.
    Listing,
    /// Asked for the time at which the file of an entry is looked up.
    ReadingClock { entries: Vec<DirectoryEntry>, index: usize, removed: usize, id: u128 },
    /// Asked whether the file of an entry is live.
    Checking { entries: Vec<DirectoryEntry>, index: usize, removed: usize, id: u128 },
    /// Asked whether a reader pins the file of an entry.
    CheckingPin { entries: Vec<DirectoryEntry>, index: usize, removed: usize, id: u128 },
    /// Asked to remove an entry.
    Removing { entries: Vec<DirectoryEntry>, index: usize, removed: usize },
    /// Ended.
    Finished,
}

/// The mathematical value of the state of a sweep of the blob directory.
pub enum ClearUntrackedView {
    Preparing,
    Listing,
    ReadingClock { entries: Seq<DirectoryEntryView>, index: usize, removed: usize, id: u128 },
    Checking { entries: Seq<DirectoryEntryView>, index: usize, removed: usize, id: u128 },
    CheckingPin { entries: Seq<DirectoryEntryView>, index: usize, removed: usize, id: u128 },
    Removing { entries: Seq<DirectoryEntryView>, index: usize, removed: usize },
    Finished,
}

impl View for ClearUntracked {
    type V = ClearUntrackedView;

    open spec fn view(&self) -> ClearUntrackedView {
        match *self {
            ClearUntracked::Preparing => ClearUntrackedView::Preparing,
            ClearUntracked::Listing => ClearUntrackedView::Listing,
            ClearUntracked::ReadingClock { entries, index, removed, id } => {
                ClearUntrackedView::ReadingClock {
                    entries: entries_view(entries@),
                    index,
                    removed,
                    id,
                }
            },
            ClearUntracked::Checking { entries, index, removed, id } => {
                ClearUntrackedView::Checking { entries: entries_view(entries@), index, removed, id }
            },
            ClearUntracked::CheckingPin { entries, index, removed, id } => {
                ClearUntrackedView::CheckingPin {
                    entries: entries_view(entries@),
                    index,
                    removed,
                    id,
                }
            },
            ClearUntracked::Removing { entries, index, removed } => ClearUntrackedView::Removing {
                entries: entries_view(entries@),
                index,
                removed,
            },
            ClearUntracked::Finished => ClearUntrackedView::Finished,
        }
    }
}

/// The request to remove an entry of the blob directory that is no
/// directory.
pub open spec fn remove_entry(name: Seq<char>) -> SweepStep {
    StepView::File(FileOperationView::RemoveEntry { directory: Directory::Files, name })
}

impl ClearUntrackedView {
    /// The first state and request of a sweep.
    pub open spec fn begin() -> (ClearUntrackedView, SweepStep) {
        (
            ClearUntrackedView::Preparing,
            StepView::File(FileOperationView::EnsureDirectory(Directory::Files)),
        )
    }

    /// The state and the request with which the sweep turns to the entry at
    /// `index`, or ends where there is none.
    pub open spec fn visit(entries: Seq<DirectoryEntryView>, index: usize, removed: usize) -> (
        ClearUntrackedView,
        SweepStep,
    ) {
        if index < entries.len() {
            let entry = entries[index as int];
            let removing = ClearUntrackedView::Removing { entries, index, removed };
            match entry.kind {
                EntryKind::Directory => (
                    removing,
                    StepView::File(
                        FileOperationView::RemoveTree {
                            directory: Directory::Files,
                            name: entry.name,
                        },
                    ),
                ),
                EntryKind::Symlink => (removing, remove_entry(entry.name)),
                EntryKind::File => match parse_hex32_spec(entry.name) {
                    Some(id) => (
                        ClearUntrackedView::ReadingClock { entries, index, removed, id },
                        StepView::Clock,
                    ),
                    None => (removing, remove_entry(entry.name)),
                },
            }
        } else {
            (ClearUntrackedView::Finished, StepView::Finish(Ok(removed)))
        }
    }

    /// The end of a sweep with the error of a reply that tells a failure or
    /// does not answer the request.
    pub open spec fn fail(reply: ReplyView, statement: bool) -> (ClearUntrackedView, SweepStep) {
        (
            ClearUntrackedView::Finished,
            StepView::Finish(
                Err(
                    match reply {
                        ReplyView::IoFailed(kind) => DatalithReadError::IOError(kind),
                        ReplyView::SqlFailed(kind) => DatalithReadError::SQLError(kind),
                        _ => if statement {
                            DatalithReadError::SQLError(SqlErrorKind::Other)
                        } else {
                            DatalithReadError::IOError(IoErrorKind::Other)
                        },
                    },
                ),
            ),
        )
    }

    /// The state and the request that follow a state and the reply to its
    /// request.
    pub open spec fn advance(self, reply: ReplyView) -> (ClearUntrackedView, SweepStep) {
        match self {
            ClearUntrackedView::Preparing => match reply {
                ReplyView::Done => (
                    ClearUntrackedView::Listing,
                    StepView::File(FileOperationView::List(Directory::Files)),
                ),
                _ => ClearUntrackedView::fail(reply, false),
            },
            ClearUntrackedView::Listing => match reply {
                ReplyView::Entries(entries) => ClearUntrackedView::visit(entries, 0, 0),
                _ => ClearUntrackedView::fail(reply, false),
            },
            ClearUntrackedView::ReadingClock { entries, index, removed, id } => match reply {
                ReplyView::Time(now) => (
                    ClearUntrackedView::Checking { entries, index, removed, id },
                    StepView::Query(StatementView::SelectFileExists { id, now }),
                ),
                _ => ClearUntrackedView::fail(reply, false),
            },
            ClearUntrackedView::Checking { entries, index, removed, id } => match reply {
                ReplyView::Flag(true) => ClearUntrackedView::visit(
                    entries,
                    one_more(index),
                    removed,
                ),
                ReplyView::Flag(false) => (
                    ClearUntrackedView::CheckingPin { entries, index, removed, id },
                    StepView::Guard(GuardRequestView::IsOpening(id)),
                ),
                _ => ClearUntrackedView::fail(reply, true),
            },
            ClearUntrackedView::CheckingPin { entries, index, removed, id } => match reply {
                ReplyView::Flag(true) => ClearUntrackedView::visit(
                    entries,
                    one_more(index),
                    removed,
                ),
                ReplyView::Flag(false) => if index < entries.len() {
                    (
                        ClearUntrackedView::Removing { entries, index, removed },
                        remove_entry(entries[index as int].name),
                    )
                } else {
                    (ClearUntrackedView::Finished, StepView::Finish(Ok(removed)))
                },
                _ => ClearUntrackedView::fail(reply, false),
            },
            ClearUntrackedView::Removing { entries, index, removed } => match reply {
                ReplyView::Done | ReplyView::IoFailed(IoErrorKind::NotFound) => {
                    ClearUntrackedView::visit(entries, one_more(index), one_more(removed))
                },
                _ => ClearUntrackedView::fail(reply, false),
            },
            ClearUntrackedView::Finished => (
                ClearUntrackedView::Finished,
                StepView::Finish(Err(DatalithReadError::IOError(IoErrorKind::Other))),
            ),
        }
    }
}

/// A state of a sweep of the blob directory and the request it waits on.
pub type ClearUntrackedNext = (ClearUntracked, Step<Result<usize, DatalithReadError>>);

/// Whether a state and a request have the given mathematical values.
pub open spec fn clear_untracked_turn_is(
    next: ClearUntrackedNext,
    turn: (ClearUntrackedView, SweepStep),
) -> bool {
    &&& next.0@ == turn.0
    &&& next.1.view_with(|o| o) == turn.1
}

fn remove_entry_step(name: String) -> (step: Step<Result<usize, DatalithReadError>>)
    ensures
        step.view_with(|o| o) == remove_entry(name@),
{
    Step::File(FileOperation::RemoveEntry { directory: Directory::Files, name })
}

fn visit_entry(entries: Vec<DirectoryEntry>, index: usize, removed: usize) -> (r:
    ClearUntrackedNext)
    ensures
        clear_untracked_turn_is(r, ClearUntrackedView::visit(entries_view(entries@), index, removed)),
{
    if index < entries.len() {
        let name = entries[index].name.clone();
        let kind = entries[index].kind;
        match kind {
            EntryKind::Directory => (
                ClearUntracked::Removing { entries, index, removed },
                Step::File(FileOperation::RemoveTree { directory: Directory::Files, name }),
            ),
            EntryKind::Symlink => (
                ClearUntracked::Removing { entries, index, removed },
                remove_entry_step(name),
            ),
            EntryKind::File => match parse_hex32(name.as_str()) {
                Some(id) => (
                    ClearUntracked::ReadingClock { entries, index, removed, id },
                    Step::Clock,
                ),
                None => (
                    ClearUntracked::Removing { entries, index, removed },
                    remove_entry_step(name),
                ),
            },
        }
    } else {
        (ClearUntracked::Finished, Step::Finish(Ok(removed)))
    }
}

fn fail_sweep(reply: &Reply, statement: bool) -> (r: ClearUntrackedNext)
    ensures
        clear_untracked_turn_is(r, ClearUntrackedView::fail(reply@, statement)),
{
    (
        ClearUntracked::Finished,
        Step::Finish(
            Err(
                match reply {
                    Reply::IoFailed(kind) => DatalithReadError::IOError(*kind),
                    Reply::SqlFailed(kind) => DatalithReadError::SQLError(*kind),
                    _ => if statement {
                        DatalithReadError::SQLError(SqlErrorKind::Other)
                    } else {
                        DatalithReadError::IOError(IoErrorKind::Other)
                    },
                },
            ),
        ),
    )
}

impl ClearUntracked {
    /// Begins a sweep of the blob directory.
    pub fn begin() -> (r: ClearUntrackedNext)
        ensures
            clear_untracked_turn_is(r, ClearUntrackedView::begin()),
    {
        (
            ClearUntracked::Preparing,
            Step::File(FileOperation::EnsureDirectory(Directory::Files)),
        )
    }
}

impl Operation for ClearUntracked {
    type Output = Result<usize, DatalithReadError>;

    type OutputView = Result<usize, DatalithReadError>;

    open spec fn output_view(output: Self::Output) -> Self::OutputView {
        output
    }

    open spec fn advance(state: ClearUntrackedView, reply: ReplyView) -> (
        ClearUntrackedView,
        SweepStep,
    ) {
        state.advance(reply)
    }

    fn resume(self, reply: Reply) -> (r: ClearUntrackedNext) {
        match self {
            ClearUntracked::Preparing => match reply {
                Reply::Done => (
                    ClearUntracked::Listing,
                    Step::File(FileOperation::List(Directory::Files)),
                ),
                _ => fail_sweep(&reply, false),
            },
            ClearUntracked::Listing => match reply {
                Reply::Entries(entries) => visit_entry(entries, 0, 0),
                _ => fail_sweep(&reply, false),
            },
            ClearUntracked::ReadingClock { entries, index, removed, id } => match reply {
                Reply::Time(now) => (
                    ClearUntracked::Checking { entries, index, removed, id },
                    Step::Query(Statement::SelectFileExists { id, now }),
                ),
                _ => fail_sweep(&reply, false),
            },
            ClearUntracked::Checking { entries, index, removed, id } => match reply {
                Reply::Flag(true) => visit_entry(entries, increment(index), removed),
                Reply::Flag(false) => (
                    ClearUntracked::CheckingPin { entries, index, removed, id },
                    Step::Guard(GuardRequest::IsOpening(id)),
                ),
                _ => fail_sweep(&reply, true),
            },
            ClearUntracked::CheckingPin { entries, index, removed, id } => match reply {
                Reply::Flag(true) => visit_entry(entries, increment(index), removed),
                Reply::Flag(false) => if index < entries.len() {
                    let name = entries[index].name.clone();
                    (ClearUntracked::Removing { entries, index, removed }, remove_entry_step(name))
                } else {
                    (ClearUntracked::Finished, Step::Finish(Ok(removed)))
                },
                _ => fail_sweep(&reply, false),
            },
            ClearUntracked::Removing { entries, index, removed } => match reply {
                Reply::Done | Reply::IoFailed(IoErrorKind::NotFound) => visit_entry(
                    entries,
                    increment(index),
                    increment(removed),
                ),
                _ => fail_sweep(&reply, false),
            },
            ClearUntracked::Finished => (
                ClearUntracked::Finished,
                Step::Finish(Err(DatalithReadError::IOError(IoErrorKind::Other))),
            ),
        }
    }
}

} // verus!
