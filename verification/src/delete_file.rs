//! Deleting a file by its identifier.

use vstd::prelude::*;
use crate::datalith_errors::DatalithReadError;
use crate::datalith_errors::IoErrorKind;
use crate::datalith_errors::SqlErrorKind;
use crate::guard::GuardRequest;
use crate::guard::GuardRequestView;
use crate::operation::Operation;
use crate::step::Directory;
use crate::step::FileOperation;
use crate::step::FileOperationView;
use crate::step::Reply;
use crate::step::ReplyView;
use crate::step::Statement;
use crate::step::StatementView;
use crate::step::Step;
use crate::step::StepView;

verus! {

/// Deleting a file by its identifier. The file is entered into the set of
/// files being deleted. Where the file has one holder only, its readers are
/// waited for. Then the count is lowered, or, where it is one, the row is
/// deleted and the blob removed. The result tells whether a row was changed.
#[derive(Clone, Copy, Debug)]
pub enum DeleteFile {
    /// Asked to enter the file into the set of files being deleted.
    Acquiring { id: u128 },
    /// Waiting before asking again.
    PausingForGuard { id: u128 },
    /// Asked whether the file has more than one holder.
    CheckingShared { id: u128 },
    /// Asked whether a reader pins the file.
    CheckingOpening { id: u128 },
    /// Waiting before asking again.
    PausingForReaders { id: u128 },
    /// Asked to lower the count if it is above one.
    Decrementing { id: u128 },
    /// Asked to open a transaction.
    Beginning { id: u128 },
    /// Asked to delete the row if its count is one.
    Deleting { id: u128 },
    /// Asked to make sure of the directory of blobs.
    Preparing { id: u128 },
    /// Asked to remove the blob.
    Unlinking { id: u128 },
    /// Asked to commit.
    Committing { id: u128 },
    /// Asked to abandon the transaction.
    RollingBack { id: u128, result: Result<bool, DatalithReadError> },
    /// Asked to take the file out of the set of files being deleted.
    Releasing { result: Result<bool, DatalithReadError> },
    /// Ended.
    Finished,
}

impl View for DeleteFile {
    type V = DeleteFile;

    open spec fn view(&self) -> DeleteFile {
        *self
    }
}

impl DeleteFile {
    /// The first state and request of deleting the file `id`.
    pub open spec fn begin_spec(id: u128) -> (DeleteFile, StepView<Result<bool, DatalithReadError>>) {
        (DeleteFile::Acquiring { id }, StepView::Guard(GuardRequestView::AcquireDelete(id)))
    }

    /// The first state and request of deleting the file `id` where the caller
    /// has entered it into the set of files being deleted and has waited for
    /// its readers.
    pub open spec fn begin_inner_spec(id: u128) -> (
        DeleteFile,
        StepView<Result<bool, DatalithReadError>>,
    ) {
        (
            DeleteFile::Decrementing { id },
            StepView::Query(StatementView::DecrementFileCount { id }),
        )
    }

    /// The state in which the transaction is abandoned before the guard is
    /// released.
    pub open spec fn roll_back(id: u128, result: Result<bool, DatalithReadError>) -> (
        DeleteFile,
        StepView<Result<bool, DatalithReadError>>,
    ) {
        (DeleteFile::RollingBack { id, result }, StepView::Query(StatementView::Rollback))
    }

    /// The state in which the guard is released before the operation ends.
    pub open spec fn release(id: u128, result: Result<bool, DatalithReadError>) -> (
        DeleteFile,
        StepView<Result<bool, DatalithReadError>>,
    ) {
        (DeleteFile::Releasing { result }, StepView::Guard(GuardRequestView::ReleaseDelete(id)))
    }

    /// Begins to delete the file `id`.
    pub fn begin(id: u128) -> (r: (DeleteFile, Step<Result<bool, DatalithReadError>>))
        ensures
            r.0 == DeleteFile::begin_spec(id).0,
            r.1.view_with(|o| o) == DeleteFile::begin_spec(id).1,
    {
        (DeleteFile::Acquiring { id }, Step::Guard(GuardRequest::AcquireDelete(id)))
    }

    /// Begins to delete the file `id` where the caller has entered it into the
    /// set of files being deleted and has waited for its readers.
    pub fn begin_inner(id: u128) -> (r: (DeleteFile, Step<Result<bool, DatalithReadError>>))
        ensures
            r.0 == DeleteFile::begin_inner_spec(id).0,
            r.1.view_with(|o| o) == DeleteFile::begin_inner_spec(id).1,
    {
        (DeleteFile::Decrementing { id }, Step::Query(Statement::DecrementFileCount { id }))
    }
}

fn roll_back(id: u128, result: Result<bool, DatalithReadError>) -> (r: (
    DeleteFile,
    Step<Result<bool, DatalithReadError>>,
))
    ensures
        r.0 == DeleteFile::roll_back(id, result).0,
        r.1.view_with(|o| o) == DeleteFile::roll_back(id, result).1,
{
    (DeleteFile::RollingBack { id, result }, Step::Query(Statement::Rollback))
}

fn release(id: u128, result: Result<bool, DatalithReadError>) -> (r: (
    DeleteFile,
    Step<Result<bool, DatalithReadError>>,
))
    ensures
        r.0 == DeleteFile::release(id, result).0,
        r.1.view_with(|o| o) == DeleteFile::release(id, result).1,
{
    (DeleteFile::Releasing { result }, Step::Guard(GuardRequest::ReleaseDelete(id)))
}

impl Operation for DeleteFile {
    type Output = Result<bool, DatalithReadError>;

    type OutputView = Result<bool, DatalithReadError>;

    open spec fn output_view(output: Self::Output) -> Self::OutputView {
        output
    }

    open spec fn advance(state: DeleteFile, reply: ReplyView) -> (
        DeleteFile,
        StepView<Self::OutputView>,
    ) {
        let io_other = Err(DatalithReadError::IOError(IoErrorKind::Other));
        let sql_other = Err(DatalithReadError::SQLError(SqlErrorKind::Other));
        match state {
            DeleteFile::Acquiring { id } => match reply {
                ReplyView::Flag(true) => (
                    DeleteFile::CheckingShared { id },
                    StepView::Query(StatementView::SelectFileShared { id }),
                ),
                ReplyView::Flag(false) => (DeleteFile::PausingForGuard { id }, StepView::Pause),
                _ => (DeleteFile::Finished, StepView::Finish(io_other)),
            },
            DeleteFile::PausingForGuard { id } => DeleteFile::begin_spec(id),
            DeleteFile::CheckingShared { id } => match reply {
                ReplyView::Flag(true) => DeleteFile::begin_inner_spec(id),
                ReplyView::Flag(false) => (
                    DeleteFile::CheckingOpening { id },
                    StepView::Guard(GuardRequestView::IsOpening(id)),
                ),
                ReplyView::SqlFailed(kind) => DeleteFile::release(
                    id,
                    Err(DatalithReadError::SQLError(kind)),
                ),
                _ => DeleteFile::release(id, sql_other),
            },
            DeleteFile::CheckingOpening { id } => match reply {
                ReplyView::Flag(true) => (DeleteFile::PausingForReaders { id }, StepView::Pause),
                ReplyView::Flag(false) => DeleteFile::begin_inner_spec(id),
                _ => DeleteFile::release(id, io_other),
            },
            DeleteFile::PausingForReaders { id } => (
                DeleteFile::CheckingOpening { id },
                StepView::Guard(GuardRequestView::IsOpening(id)),
            ),
            DeleteFile::Decrementing { id } => match reply {
                ReplyView::Affected(n) => if n > 0 {
                    DeleteFile::release(id, Ok(true))
                } else {
                    (DeleteFile::Beginning { id }, StepView::Query(StatementView::Begin))
                },
                ReplyView::SqlFailed(kind) => DeleteFile::release(
                    id,
                    Err(DatalithReadError::SQLError(kind)),
                ),
                _ => DeleteFile::release(id, sql_other),
            },
            DeleteFile::Beginning { id } => match reply {
                ReplyView::Done => (
                    DeleteFile::Deleting { id },
                    StepView::Query(StatementView::DeleteLastFile { id }),
                ),
                ReplyView::SqlFailed(kind) => DeleteFile::release(
                    id,
                    Err(DatalithReadError::SQLError(kind)),
                ),
                _ => DeleteFile::release(id, sql_other),
            },
            DeleteFile::Deleting { id } => match reply {
                ReplyView::Affected(n) => if n > 0 {
                    (
                        DeleteFile::Preparing { id },
                        StepView::File(FileOperationView::EnsureDirectory(Directory::Files)),
                    )
                } else {
                    DeleteFile::roll_back(id, Ok(false))
                },
                ReplyView::SqlFailed(SqlErrorKind::ForeignKeyRestricted) => DeleteFile::roll_back(
                    id,
                    Ok(false),
                ),
                ReplyView::SqlFailed(kind) => DeleteFile::roll_back(
                    id,
                    Err(DatalithReadError::SQLError(kind)),
                ),
                _ => DeleteFile::roll_back(id, sql_other),
            },
            DeleteFile::Preparing { id } => match reply {
                ReplyView::Done => (
                    DeleteFile::Unlinking { id },
                    StepView::File(FileOperationView::RemoveBlob { id }),
                ),
                ReplyView::IoFailed(kind) => DeleteFile::roll_back(
                    id,
                    Err(DatalithReadError::IOError(kind)),
                ),
                _ => DeleteFile::roll_back(id, io_other),
            },
            DeleteFile::Unlinking { id } => match reply {
                ReplyView::Done | ReplyView::IoFailed(IoErrorKind::NotFound) => (
                    DeleteFile::Committing { id },
                    StepView::Query(StatementView::Commit),
                ),
                ReplyView::IoFailed(kind) => DeleteFile::roll_back(
                    id,
                    Err(DatalithReadError::IOError(kind)),
                ),
                _ => DeleteFile::roll_back(id, io_other),
            },
            DeleteFile::Committing { id } => match reply {
                ReplyView::Done => DeleteFile::release(id, Ok(true)),
                ReplyView::SqlFailed(kind) => DeleteFile::release(
                    id,
                    Err(DatalithReadError::SQLError(kind)),
                ),
                _ => DeleteFile::release(id, sql_other),
            },
            DeleteFile::RollingBack { id, result } => DeleteFile::release(id, result),
            DeleteFile::Releasing { result } => (DeleteFile::Finished, StepView::Finish(result)),
            DeleteFile::Finished => (DeleteFile::Finished, StepView::Finish(io_other)),
        }
    }

    fn resume(self, reply: Reply) -> (r: (DeleteFile, Step<Self::Output>)) {
        let io_other = Err(DatalithReadError::IOError(IoErrorKind::Other));
        let sql_other = Err(DatalithReadError::SQLError(SqlErrorKind::Other));
        match self {
            DeleteFile::Acquiring { id } => match reply {
                Reply::Flag(true) => (
                    DeleteFile::CheckingShared { id },
                    Step::Query(Statement::SelectFileShared { id }),
                ),
                Reply::Flag(false) => (DeleteFile::PausingForGuard { id }, Step::Pause),
                _ => (DeleteFile::Finished, Step::Finish(io_other)),
            },
            DeleteFile::PausingForGuard { id } => DeleteFile::begin(id),
            DeleteFile::CheckingShared { id } => match reply {
                Reply::Flag(true) => DeleteFile::begin_inner(id),
                Reply::Flag(false) => (
                    DeleteFile::CheckingOpening { id },
                    Step::Guard(GuardRequest::IsOpening(id)),
                ),
                Reply::SqlFailed(kind) => release(id, Err(DatalithReadError::SQLError(kind))),
                _ => release(id, sql_other),
            },
            DeleteFile::CheckingOpening { id } => match reply {
                Reply::Flag(true) => (DeleteFile::PausingForReaders { id }, Step::Pause),
                Reply::Flag(false) => DeleteFile::begin_inner(id),
                _ => release(id, io_other),
            },
            DeleteFile::PausingForReaders { id } => (
                DeleteFile::CheckingOpening { id },
                Step::Guard(GuardRequest::IsOpening(id)),
            ),
            DeleteFile::Decrementing { id } => match reply {
                Reply::Affected(n) => if n > 0 {
                    release(id, Ok(true))
                } else {
                    (DeleteFile::Beginning { id }, Step::Query(Statement::Begin))
                },
                Reply::SqlFailed(kind) => release(id, Err(DatalithReadError::SQLError(kind))),
                _ => release(id, sql_other),
            },
            DeleteFile::Beginning { id } => match reply {
                Reply::Done => (
                    DeleteFile::Deleting { id },
                    Step::Query(Statement::DeleteLastFile { id }),
                ),
                Reply::SqlFailed(kind) => release(id, Err(DatalithReadError::SQLError(kind))),
                _ => release(id, sql_other),
            },
            DeleteFile::Deleting { id } => match reply {
                Reply::Affected(n) => if n > 0 {
                    (
                        DeleteFile::Preparing { id },
                        Step::File(FileOperation::EnsureDirectory(Directory::Files)),
                    )
                } else {
                    roll_back(id, Ok(false))
                },
                Reply::SqlFailed(SqlErrorKind::ForeignKeyRestricted) => roll_back(id, Ok(false)),
                Reply::SqlFailed(kind) => roll_back(id, Err(DatalithReadError::SQLError(kind))),
                _ => roll_back(id, sql_other),
            },
            DeleteFile::Preparing { id } => match reply {
                Reply::Done => (
                    DeleteFile::Unlinking { id },
                    Step::File(FileOperation::RemoveBlob { id }),
                ),
                Reply::IoFailed(kind) => roll_back(id, Err(DatalithReadError::IOError(kind))),
                _ => roll_back(id, io_other),
            },
            DeleteFile::Unlinking { id } => match reply {
                Reply::Done | Reply::IoFailed(IoErrorKind::NotFound) => (
                    DeleteFile::Committing { id },
                    Step::Query(Statement::Commit),
                ),
                Reply::IoFailed(kind) => roll_back(id, Err(DatalithReadError::IOError(kind))),
                _ => roll_back(id, io_other),
            },
            DeleteFile::Committing { id } => match reply {
                Reply::Done => release(id, Ok(true)),
                Reply::SqlFailed(kind) => release(id, Err(DatalithReadError::SQLError(kind))),
                _ => release(id, sql_other),
            },
            DeleteFile::RollingBack { id, result } => release(id, result),
            DeleteFile::Releasing { result } => (DeleteFile::Finished, Step::Finish(result)),
            DeleteFile::Finished => (DeleteFile::Finished, Step::Finish(io_other)),
        }
    }
}

} // verus!
