//! Getting a file by its identifier.

use vstd::prelude::*;
use crate::datalith_errors::DatalithReadError;
use crate::datalith_errors::IoErrorKind;
use crate::datalith_errors::SqlErrorKind;
use crate::datalith_file::handle_of;
use crate::datalith_file::DatalithFile;
use crate::datalith_file::DatalithFileView;
use crate::guard::GuardRequest;
use crate::guard::GuardRequestView;
use crate::operation::Operation;
use crate::step::Reply;
use crate::step::ReplyView;
use crate::step::Statement;
use crate::step::StatementView;
use crate::step::Step;
use crate::step::StepView;

verus! {

/// The mathematical value of the result of getting a file.
pub open spec fn found_file_view(r: Result<Option<DatalithFile>, DatalithReadError>) -> Result<
    Option<DatalithFileView>,
    DatalithReadError,
> {
    match r {
        Ok(Some(file)) => Ok(Some(file@)),
        Ok(None) => Ok(None),
        Err(e) => Err(e),
    }
}

/// Getting a file by its identifier: the file is pinned, deletions of it
/// are waited for, a temporary file is consumed, and the row is read. The pin
/// stays with the handle that is returned and is released where none is.
#[derive(Clone, Copy, Debug, PartialEq, Eq, Structural)]
pub enum GetFile {
    /// Asked to pin the file.
    Pinning { id: u128, now: i64 },
    /// Asked whether the file is being deleted.
    Polling { id: u128, now: i64 },
    /// Waiting before asking again.
    Pausing { id: u128, now: i64 },
    /// Asked to consume the file if it is temporary.
    Touching { id: u128, now: i64 },
    /// Asked for the row.
    Selecting { id: u128, now: i64, is_temporary: bool },
    /// Asked to unpin the file, to end without a handle.
    Unpinning { error: Option<DatalithReadError> },
    /// Ended.
    Finished,
}

impl View for GetFile {
    type V = GetFile;

    open spec fn view(&self) -> GetFile {
        *self
    }
}

impl GetFile {
    /// The first state and request of getting the file `id` at time `now`.
    pub open spec fn begin_spec(id: u128, now: i64) -> (
        GetFile,
        StepView<Result<Option<DatalithFileView>, DatalithReadError>>,
    ) {
        (GetFile::Pinning { id, now }, StepView::Guard(GuardRequestView::AcquireOpen(id)))
    }

    /// Begins to get the file `id` at time `now`.
    pub fn begin(id: u128, now: i64) -> (r: (
        GetFile,
        Step<Result<Option<DatalithFile>, DatalithReadError>>,
    ))
        ensures
            r.0 == GetFile::begin_spec(id, now).0,
            r.1.view_with(|o| found_file_view(o)) == GetFile::begin_spec(id, now).1,
    {
        (GetFile::Pinning { id, now }, Step::Guard(GuardRequest::AcquireOpen(id)))
    }

    /// The state in which the file is unpinned before the operation ends
    /// without a handle.
    pub open spec fn unpin(id: u128, error: Option<DatalithReadError>) -> (
        GetFile,
        StepView<Result<Option<DatalithFileView>, DatalithReadError>>,
    ) {
        (GetFile::Unpinning { error }, StepView::Guard(GuardRequestView::ReleaseOpen(id)))
    }
}

impl Operation for GetFile {
    type Output = Result<Option<DatalithFile>, DatalithReadError>;

    type OutputView = Result<Option<DatalithFileView>, DatalithReadError>;

    open spec fn output_view(output: Self::Output) -> Self::OutputView {
        found_file_view(output)
    }

    open spec fn advance(state: GetFile, reply: ReplyView) -> (
        GetFile,
        StepView<Self::OutputView>,
    ) {
        match state {
            GetFile::Pinning { id, now } => match reply {
                ReplyView::Flag(true) => (
                    GetFile::Polling { id, now },
                    StepView::Guard(GuardRequestView::IsDeleting(id)),
                ),
                _ => (
                    GetFile::Finished,
                    StepView::Finish(Err(DatalithReadError::IOError(IoErrorKind::Other))),
                ),
            },
            GetFile::Polling { id, now } => match reply {
                ReplyView::Flag(true) => (GetFile::Pausing { id, now }, StepView::Pause),
                ReplyView::Flag(false) => (
                    GetFile::Touching { id, now },
                    StepView::Query(StatementView::TouchTemporaryFile { id, now }),
                ),
                _ => GetFile::unpin(id, Some(DatalithReadError::IOError(IoErrorKind::Other))),
            },
            GetFile::Pausing { id, now } => (
                GetFile::Polling { id, now },
                StepView::Guard(GuardRequestView::IsDeleting(id)),
            ),
            GetFile::Touching { id, now } => match reply {
                ReplyView::Affected(n) => (
                    GetFile::Selecting { id, now, is_temporary: n > 0 },
                    StepView::Query(StatementView::SelectReadableFile { id, now }),
                ),
                ReplyView::SqlFailed(kind) => GetFile::unpin(
                    id,
                    Some(DatalithReadError::SQLError(kind)),
                ),
                _ => GetFile::unpin(id, Some(DatalithReadError::SQLError(SqlErrorKind::Other))),
            },
            GetFile::Selecting { id, now, is_temporary } => match reply {
                ReplyView::File(Some(row)) => (
                    GetFile::Finished,
                    StepView::Finish(Ok(Some(handle_of(row, is_temporary, false)))),
                ),
                ReplyView::File(None) => GetFile::unpin(id, None),
                ReplyView::SqlFailed(kind) => GetFile::unpin(
                    id,
                    Some(DatalithReadError::SQLError(kind)),
                ),
                _ => GetFile::unpin(id, Some(DatalithReadError::SQLError(SqlErrorKind::Other))),
            },
            GetFile::Unpinning { error } => (
                GetFile::Finished,
                StepView::Finish(
                    match error {
                        Some(e) => Err(e),
                        None => Ok(None),
                    },
                ),
            ),
            GetFile::Finished => (
                GetFile::Finished,
                StepView::Finish(Err(DatalithReadError::IOError(IoErrorKind::Other))),
            ),
        }
    }

    fn resume(self, reply: Reply) -> (r: (GetFile, Step<Self::Output>)) {
        match self {
            GetFile::Pinning { id, now } => match reply {
                Reply::Flag(true) => (
                    GetFile::Polling { id, now },
                    Step::Guard(GuardRequest::IsDeleting(id)),
                ),
                _ => (
                    GetFile::Finished,
                    Step::Finish(Err(DatalithReadError::IOError(IoErrorKind::Other))),
                ),
            },
            GetFile::Polling { id, now } => match reply {
                Reply::Flag(true) => (GetFile::Pausing { id, now }, Step::Pause),
                Reply::Flag(false) => (
                    GetFile::Touching { id, now },
                    Step::Query(Statement::TouchTemporaryFile { id, now }),
                ),
                _ => unpin(id, Some(DatalithReadError::IOError(IoErrorKind::Other))),
            },
            GetFile::Pausing { id, now } => (
                GetFile::Polling { id, now },
                Step::Guard(GuardRequest::IsDeleting(id)),
            ),
            GetFile::Touching { id, now } => match reply {
                Reply::Affected(n) => (
                    GetFile::Selecting { id, now, is_temporary: n > 0 },
                    Step::Query(Statement::SelectReadableFile { id, now }),
                ),
                Reply::SqlFailed(kind) => unpin(id, Some(DatalithReadError::SQLError(kind))),
                _ => unpin(id, Some(DatalithReadError::SQLError(SqlErrorKind::Other))),
            },
            GetFile::Selecting { id, now, is_temporary } => match reply {
                Reply::File(Some(row)) => (
                    GetFile::Finished,
                    Step::Finish(Ok(Some(DatalithFile::new(row, is_temporary, false)))),
                ),
                Reply::File(None) => unpin(id, None),
                Reply::SqlFailed(kind) => unpin(id, Some(DatalithReadError::SQLError(kind))),
                _ => unpin(id, Some(DatalithReadError::SQLError(SqlErrorKind::Other))),
            },
            GetFile::Unpinning { error } => (
                GetFile::Finished,
                Step::Finish(
                    match error {
                        Some(e) => Err(e),
                        None => Ok(None),
                    },
                ),
            ),
            GetFile::Finished => (
                GetFile::Finished,
                Step::Finish(Err(DatalithReadError::IOError(IoErrorKind::Other))),
            ),
        }
    }
}

fn unpin(id: u128, error: Option<DatalithReadError>) -> (r: (
    GetFile,
    Step<Result<Option<DatalithFile>, DatalithReadError>>,
))
    ensures
        r.0 == GetFile::unpin(id, error).0,
        r.1.view_with(|o| found_file_view(o)) == GetFile::unpin(id, error).1,
{
    (GetFile::Unpinning { error }, Step::Guard(GuardRequest::ReleaseOpen(id)))
}

} // verus!
