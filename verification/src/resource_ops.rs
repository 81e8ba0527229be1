//! Putting, getting and deleting resources.

use vstd::prelude::*;
use crate::datalith_errors::write_error_of_read;
use crate::datalith_errors::DatalithReadError;
use crate::datalith_errors::DatalithWriteError;
use crate::datalith_errors::DatalithWriteErrorView;
use crate::datalith_errors::IoErrorKind;
use crate::datalith_errors::SqlErrorKind;
use crate::datalith_file::DatalithFile;
use crate::datalith_file::DatalithFileView;
use crate::delete_file::DeleteFile;
use crate::functions::declared_view;
use crate::functions::derived_file_name;
use crate::functions::get_file_name;
use crate::get_file::GetFile;
use crate::guard::GuardRequest;
use crate::guard::GuardRequestView;
use crate::media_type::FileTypeLevel;
use crate::media_type::MediaType;
use crate::media_type::MediaTypeView;
use crate::operation::Operation;
use crate::put_file::text_view;
use crate::put_file::PutFile;
use crate::put_file::PutFileView;
use crate::put_file::PutRequest;
use crate::put_file::PutRequestView;
use crate::resources::resource_of;
use crate::resources::DatalithResource;
use crate::resources::DatalithResourceView;
use crate::resources::ResourceRecord;
use crate::resources::ResourceRow;
use crate::step::Passed;
use crate::step::Reply;
use crate::step::ReplyView;
use crate::step::Statement;
use crate::step::StatementView;
use crate::step::Step;
use crate::step::StepView;

verus! {

/// The mathematical value of the result of putting a resource.
pub open spec fn put_resource_result_view(r: Result<DatalithResource, DatalithWriteError>) -> Result<
    DatalithResourceView,
    DatalithWriteErrorView,
> {
    match r {
        Ok(resource) => Ok(resource@),
        Err(e) => Err(e@),
    }
}

/// Putting a resource: a file is put, and a row is inserted that names the
/// file. A resource on a new file takes its time, name and type from the
/// file; a resource on a file that was there takes the time of the put, the
/// name given and the type declared. Where the row cannot be inserted, the
/// holder that the put gave the file is taken away again.
#[derive(Debug)]
pub enum PutResource {
    /// The file is being put.
    Putting {
        put: PutFile,
        id: u128,
        file_name: Option<String>,
        file_type: Option<(MediaType, FileTypeLevel)>,
    },
    /// Asked for the time of creation.
    ReadingClock {
        file: DatalithFile,
        id: u128,
        file_name: Option<String>,
        file_type: Option<(MediaType, FileTypeLevel)>,
    },
    /// Asked to insert the row.
    Inserting { row: ResourceRow, file: DatalithFile },
    /// Asked to unpin the file after a failure.
    Unpinning { file_id: u128, error: DatalithWriteError },
    /// The holder of the file is being taken away after a failure.
    Recovering { delete: DeleteFile, error: DatalithWriteError },
    /// Ended.
    Finished,
}

/// The mathematical value of the state of a put of a resource.
pub enum PutResourceView {
    Putting {
        put: PutFileView,
        id: u128,
        file_name: Option<Seq<char>>,
        file_type: Option<(MediaTypeView, FileTypeLevel)>,
    },
    ReadingClock {
        file: DatalithFileView,
        id: u128,
        file_name: Option<Seq<char>>,
        file_type: Option<(MediaTypeView, FileTypeLevel)>,
    },
    Inserting { row: ResourceRecord, file: DatalithFileView },
    Unpinning { file_id: u128, error: DatalithWriteErrorView },
    Recovering { delete: DeleteFile, error: DatalithWriteErrorView },
    Finished,
}

impl View for PutResource {
    type V = PutResourceView;

    open spec fn view(&self) -> PutResourceView {
        match *self {
            PutResource::Putting { put, id, file_name, file_type } => PutResourceView::Putting {
                put: put@,
                id,
                file_name: text_view(file_name),
                file_type: declared_view(file_type),
            },
            PutResource::ReadingClock { file, id, file_name, file_type } => {
                PutResourceView::ReadingClock {
                    file: file@,
                    id,
                    file_name: text_view(file_name),
                    file_type: declared_view(file_type),
                }
            },
            PutResource::Inserting { row, file } => PutResourceView::Inserting {
                row: row@,
                file: file@,
            },
            PutResource::Unpinning { file_id, error } => PutResourceView::Unpinning {
                file_id,
                error: error@,
            },
            PutResource::Recovering { delete, error } => PutResourceView::Recovering {
                delete,
                error: error@,
            },
            PutResource::Finished => PutResourceView::Finished,
        }
    }
}

/// A state of a put of a resource and the request it waits on, as
/// mathematical values.
pub type PutResourceTurn = (
    PutResourceView,
    StepView<Result<DatalithResourceView, DatalithWriteErrorView>>,
);

/// The type of a resource on a file that was there: the declared type, where
/// it was declared to be used as it is or to be matched, and else the type
/// of the file.
pub open spec fn label_type(
    file: DatalithFileView,
    file_type: Option<(MediaTypeView, FileTypeLevel)>,
) -> MediaTypeView {
    match file_type {
        Some((t, FileTypeLevel::Manual)) => t,
        Some((t, FileTypeLevel::ExactMatch)) => t,
        _ => file.file_type,
    }
}

/// The row of a resource on a file that the put has created.
pub open spec fn row_on_new_file(id: u128, file: DatalithFileView) -> ResourceRecord {
    ResourceRecord {
        id,
        created_at: file.created_at,
        file_name: file.file_name,
        file_type: file.file_type,
        file_id: file.id,
    }
}

/// The row of a resource made at `now` on a file that was there.
pub open spec fn row_on_old_file(
    id: u128,
    file: DatalithFileView,
    file_name: Option<Seq<char>>,
    file_type: Option<(MediaTypeView, FileTypeLevel)>,
    now: i64,
) -> ResourceRecord {
    let t = label_type(file, file_type);
    ResourceRecord {
        id,
        created_at: now,
        file_name: derived_file_name(
            match file_name {
                Some(name) => name,
                None => Seq::empty(),
            },
            now,
            t,
        ),
        file_type: t,
        file_id: file.id,
    }
}

impl PutResourceView {
    /// The first state and request of a put of the resource `id`.
    pub open spec fn begin(request: PutRequestView, id: u128) -> PutResourceTurn {
        let (put, step) = PutFileView::begin(request);
        (
            PutResourceView::Putting {
                put,
                id,
                file_name: request.file_name,
                file_type: request.file_type,
            },
            step.pass(),
        )
    }

    /// The state and the request that follow a state and the reply to its
    /// request.
    pub open spec fn advance(self, reply: ReplyView) -> PutResourceTurn {
        match self {
            PutResourceView::Putting { put, id, file_name, file_type } => {
                let (next, step) = put.advance(reply);
                match step {
                    StepView::Finish(Ok(file)) => if file.is_new {
                        let row = row_on_new_file(id, file);
                        (
                            PutResourceView::Inserting { row, file },
                            StepView::Query(StatementView::InsertResource(row)),
                        )
                    } else {
                        (
                            PutResourceView::ReadingClock { file, id, file_name, file_type },
                            StepView::Clock,
                        )
                    },
                    StepView::Finish(Err(e)) => (
                        PutResourceView::Finished,
                        StepView::Finish(Err(e)),
                    ),
                    _ => (
                        PutResourceView::Putting { put: next, id, file_name, file_type },
                        step.pass(),
                    ),
                }
            },
            PutResourceView::ReadingClock { file, id, file_name, file_type } => match reply {
                ReplyView::Time(now) => {
                    let row = row_on_old_file(id, file, file_name, file_type, now);
                    (
                        PutResourceView::Inserting { row, file },
                        StepView::Query(StatementView::InsertResource(row)),
                    )
                },
                _ => (
                    PutResourceView::Unpinning {
                        file_id: file.id,
                        error: PutFileView::failure(reply, false),
                    },
                    StepView::Guard(GuardRequestView::ReleaseOpen(file.id)),
                ),
            },
            PutResourceView::Inserting { row, file } => match reply {
                ReplyView::Affected(_) => (
                    PutResourceView::Finished,
                    StepView::Finish(Ok(resource_of(row, file))),
                ),
                _ => (
                    PutResourceView::Unpinning {
                        file_id: file.id,
                        error: PutFileView::failure(reply, true),
                    },
                    StepView::Guard(GuardRequestView::ReleaseOpen(file.id)),
                ),
            },
            PutResourceView::Unpinning { file_id, error } => {
                let (delete, step) = DeleteFile::begin_spec(file_id);
                (PutResourceView::Recovering { delete, error }, step.pass())
            },
            PutResourceView::Recovering { delete, error } => {
                let (next, step) = DeleteFile::advance(delete, reply);
                match step {
                    StepView::Finish(Ok(_)) => (
                        PutResourceView::Finished,
                        StepView::Finish(Err(error)),
                    ),
                    StepView::Finish(Err(e)) => (
                        PutResourceView::Finished,
                        StepView::Finish(Err(write_error_of_read(e))),
                    ),
                    _ => (PutResourceView::Recovering { delete: next, error }, step.pass()),
                }
            },
            PutResourceView::Finished => (
                PutResourceView::Finished,
                StepView::Finish(Err(DatalithWriteErrorView::IOError(IoErrorKind::Other))),
            ),
        }
    }
}

/// A state of a put of a resource and the request it waits on.
pub type PutResourceNext = (PutResource, Step<Result<DatalithResource, DatalithWriteError>>);

/// Whether a state and a request have the given mathematical values.
pub open spec fn put_resource_turn_is(next: PutResourceNext, turn: PutResourceTurn) -> bool {
    &&& next.0@ == turn.0
    &&& next.1.view_with(|o| put_resource_result_view(o)) == turn.1
}

fn copy_name(name: &Option<String>) -> (r: Option<String>)
    ensures
        text_view(r) == text_view(*name),
{
    match name {
        Some(name) => Some(name.clone()),
        None => None,
    }
}

fn copy_declared(declared: &Option<(MediaType, FileTypeLevel)>) -> (r: Option<
    (MediaType, FileTypeLevel),
>)
    ensures
        declared_view(r) == declared_view(*declared),
{
    match declared {
        Some((t, level)) => Some((t.duplicate(), *level)),
        None => None,
    }
}

fn copy_resource_row(row: &ResourceRow) -> (r: ResourceRow)
    ensures
        r@ == row@,
{
    ResourceRow {
        id: row.id,
        created_at: row.created_at,
        file_name: row.file_name.clone(),
        file_type: row.file_type.duplicate(),
        file_id: row.file_id,
    }
}

fn insert_resource(row: ResourceRow, file: DatalithFile) -> (r: PutResourceNext)
    ensures
        r.0@ == (PutResourceView::Inserting { row: row@, file: file@ }),
        r.1.view_with(|o| put_resource_result_view(o)) == StepView::<
            Result<DatalithResourceView, DatalithWriteErrorView>,
        >::Query(StatementView::InsertResource(row@)),
{
    let copy = copy_resource_row(&row);
    (PutResource::Inserting { row, file }, Step::Query(Statement::InsertResource(copy)))
}

fn write_failure(reply: &Reply, statement: bool) -> (e: DatalithWriteError)
    ensures
        e@ == PutFileView::failure(reply@, statement),
{
    match reply {
        Reply::IoFailed(kind) => DatalithWriteError::IOError(*kind),
        Reply::SqlFailed(kind) => DatalithWriteError::SQLError(*kind),
        _ => if statement {
            DatalithWriteError::SQLError(SqlErrorKind::Other)
        } else {
            DatalithWriteError::IOError(IoErrorKind::Other)
        },
    }
}

impl PutResource {
    /// Begins a put of the resource `id`.
    pub fn begin(request: PutRequest, id: u128) -> (r: PutResourceNext)
        ensures
            put_resource_turn_is(r, PutResourceView::begin(request@, id)),
    {
        let file_name = copy_name(&request.file_name);
        let file_type = copy_declared(&request.file_type);
        let (put, step) = PutFile::begin(request);
        match step.pass() {
            Passed::Request(step) => (PutResource::Putting { put, id, file_name, file_type }, step),
            Passed::Ended(_) => (
                PutResource::Finished,
                Step::Finish(Err(DatalithWriteError::IOError(IoErrorKind::Other))),
            ),
        }
    }
}

impl Operation for PutResource {
    type Output = Result<DatalithResource, DatalithWriteError>;

    type OutputView = Result<DatalithResourceView, DatalithWriteErrorView>;

    open spec fn output_view(output: Self::Output) -> Self::OutputView {
        put_resource_result_view(output)
    }

    open spec fn advance(state: PutResourceView, reply: ReplyView) -> PutResourceTurn {
        state.advance(reply)
    }

    fn resume(self, reply: Reply) -> (r: PutResourceNext) {
        match self {
            PutResource::Putting { put, id, file_name, file_type } => {
                let (next, step) = put.resume(reply);
                match step.pass() {
                    Passed::Ended(Ok(file)) => {
                        if file.is_new() {
                            let row = ResourceRow {
                                id,
                                created_at: file.created_at(),
                                file_name: file.file_name().clone(),
                                file_type: file.file_type().duplicate(),
                                file_id: file.id(),
                            };
                            insert_resource(row, file)
                        } else {
                            (
                                PutResource::ReadingClock { file, id, file_name, file_type },
                                Step::Clock,
                            )
                        }
                    },
                    Passed::Ended(Err(e)) => (PutResource::Finished, Step::Finish(Err(e))),
                    Passed::Request(step) => (
                        PutResource::Putting { put: next, id, file_name, file_type },
                        step,
                    ),
                }
            },
            PutResource::ReadingClock { file, id, file_name, file_type } => match reply {
                Reply::Time(now) => {
                    let t = match file_type {
                        Some((t, FileTypeLevel::Manual)) => t,
                        Some((t, FileTypeLevel::ExactMatch)) => t,
                        _ => file.file_type().duplicate(),
                    };
                    let name = get_file_name(file_name, now, &t);
                    let row = ResourceRow {
                        id,
                        created_at: now,
                        file_name: name,
                        file_type: t,
                        file_id: file.id(),
                    };
                    insert_resource(row, file)
                },
                _ => {
                    let file_id = file.id();
                    (
                        PutResource::Unpinning { file_id, error: write_failure(&reply, false) },
                        Step::Guard(GuardRequest::ReleaseOpen(file_id)),
                    )
                },
            },
            PutResource::Inserting { row, file } => match reply {
                Reply::Affected(_) => (
                    PutResource::Finished,
                    Step::Finish(Ok(DatalithResource::new(row, file))),
                ),
                _ => {
                    let file_id = file.id();
                    (
                        PutResource::Unpinning { file_id, error: write_failure(&reply, true) },
                        Step::Guard(GuardRequest::ReleaseOpen(file_id)),
                    )
                },
            },
            PutResource::Unpinning { file_id, error } => {
                let (delete, step) = DeleteFile::begin(file_id);
                match step.pass() {
                    Passed::Request(step) => (PutResource::Recovering { delete, error }, step),
                    Passed::Ended(_) => (PutResource::Finished, Step::Finish(Err(error))),
                }
            },
            PutResource::Recovering { delete, error } => {
                let (next, step) = delete.resume(reply);
                match step.pass() {
                    Passed::Ended(Ok(_)) => (PutResource::Finished, Step::Finish(Err(error))),
                    Passed::Ended(Err(e)) => (
                        PutResource::Finished,
                        Step::Finish(Err(DatalithWriteError::from_read_error(e))),
                    ),
                    Passed::Request(step) => (
                        PutResource::Recovering { delete: next, error },
                        step,
                    ),
                }
            },
            PutResource::Finished => (
                PutResource::Finished,
                Step::Finish(Err(DatalithWriteError::IOError(IoErrorKind::Other))),
            ),
        }
    }
}

/// The mathematical value of the result of getting a resource.
pub open spec fn found_resource_view(r: Result<Option<DatalithResource>, DatalithReadError>) -> Result<
    Option<DatalithResourceView>,
    DatalithReadError,
> {
    match r {
        Ok(Some(resource)) => Ok(Some(resource@)),
        Ok(None) => Ok(None),
        Err(e) => Err(e),
    }
}

/// Getting a resource: its row is read, if its file is live, and the file
/// is got.
#[derive(Debug)]
pub enum GetResource {
    /// Asked for the row.
    Selecting { id: u128 },
    /// Asked for the time at which the file is got.
    ReadingClock { row: ResourceRow },
    /// The file is being got.
    Getting { row: ResourceRow, get: GetFile },
    /// Ended.
    Finished,
}

/// The mathematical value of the state of a get of a resource.
pub enum GetResourceView {
    Selecting { id: u128 },
    ReadingClock { row: ResourceRecord },
    Getting { row: ResourceRecord, get: GetFile },
    Finished,
}

impl View for GetResource {
    type V = GetResourceView;

    open spec fn view(&self) -> GetResourceView {
        match *self {
            GetResource::Selecting { id } => GetResourceView::Selecting { id },
            GetResource::ReadingClock { row } => GetResourceView::ReadingClock { row: row@ },
            GetResource::Getting { row, get } => GetResourceView::Getting { row: row@, get },
            GetResource::Finished => GetResourceView::Finished,
        }
    }
}

/// A state of a get of a resource and the request it waits on, as
/// mathematical values.
pub type GetResourceTurn = (
    GetResourceView,
    StepView<Result<Option<DatalithResourceView>, DatalithReadError>>,
);

impl GetResourceView {
    /// The first state and request of getting the resource `id` at `now`.
    pub open spec fn begin(id: u128, now: i64) -> GetResourceTurn {
        (
            GetResourceView::Selecting { id },
            StepView::Query(StatementView::SelectResource { id, now }),
        )
    }

    /// The state and the request that follow a state and the reply to its
    /// request.
    pub open spec fn advance(self, reply: ReplyView) -> GetResourceTurn {
        let sql_other = DatalithReadError::SQLError(SqlErrorKind::Other);
        match self {
            GetResourceView::Selecting { id } => match reply {
                ReplyView::Resource(Some(row)) => (
                    GetResourceView::ReadingClock { row },
                    StepView::Clock,
                ),
                ReplyView::Resource(None) => (
                    GetResourceView::Finished,
                    StepView::Finish(Ok(None)),
                ),
                ReplyView::SqlFailed(kind) => (
                    GetResourceView::Finished,
                    StepView::Finish(Err(DatalithReadError::SQLError(kind))),
                ),
                _ => (GetResourceView::Finished, StepView::Finish(Err(sql_other))),
            },
            GetResourceView::ReadingClock { row } => match reply {
                ReplyView::Time(now) => {
                    let (get, step) = GetFile::begin_spec(row.file_id, now);
                    (GetResourceView::Getting { row, get }, step.pass())
                },
                _ => (
                    GetResourceView::Finished,
                    StepView::Finish(Err(DatalithReadError::IOError(IoErrorKind::Other))),
                ),
            },
            GetResourceView::Getting { row, get } => {
                let (next, step) = GetFile::advance(get, reply);
                match step {
                    StepView::Finish(Ok(Some(file))) => (
                        GetResourceView::Finished,
                        StepView::Finish(Ok(Some(resource_of(row, file)))),
                    ),
                    StepView::Finish(Ok(None)) => (
                        GetResourceView::Finished,
                        StepView::Finish(Ok(None)),
                    ),
                    StepView::Finish(Err(e)) => (
                        GetResourceView::Finished,
                        StepView::Finish(Err(e)),
                    ),
                    _ => (GetResourceView::Getting { row, get: next }, step.pass()),
                }
            },
            GetResourceView::Finished => (
                GetResourceView::Finished,
                StepView::Finish(Err(DatalithReadError::IOError(IoErrorKind::Other))),
            ),
        }
    }
}

/// A state of a get of a resource and the request it waits on.
pub type GetResourceNext = (GetResource, Step<Result<Option<DatalithResource>, DatalithReadError>>);

impl GetResource {
    /// Begins to get the resource `id` at time `now`.
    pub fn begin(id: u128, now: i64) -> (r: GetResourceNext)
        ensures
            r.0@ == GetResourceView::begin(id, now).0,
            r.1.view_with(|o| found_resource_view(o)) == GetResourceView::begin(id, now).1,
    {
        (GetResource::Selecting { id }, Step::Query(Statement::SelectResource { id, now }))
    }
}

impl Operation for GetResource {
    type Output = Result<Option<DatalithResource>, DatalithReadError>;

    type OutputView = Result<Option<DatalithResourceView>, DatalithReadError>;

    open spec fn output_view(output: Self::Output) -> Self::OutputView {
        found_resource_view(output)
    }

    open spec fn advance(state: GetResourceView, reply: ReplyView) -> GetResourceTurn {
        state.advance(reply)
    }

    fn resume(self, reply: Reply) -> (r: GetResourceNext) {
        let sql_other = DatalithReadError::SQLError(SqlErrorKind::Other);
        match self {
            GetResource::Selecting { id } => match reply {
                Reply::Resource(Some(row)) => (GetResource::ReadingClock { row }, Step::Clock),
                Reply::Resource(None) => (GetResource::Finished, Step::Finish(Ok(None))),
                Reply::SqlFailed(kind) => (
                    GetResource::Finished,
                    Step::Finish(Err(DatalithReadError::SQLError(kind))),
                ),
                _ => (GetResource::Finished, Step::Finish(Err(sql_other))),
            },
            GetResource::ReadingClock { row } => match reply {
                Reply::Time(now) => {
                    let (get, step) = GetFile::begin(row.file_id, now);
                    match step.pass() {
                        Passed::Request(step) => (GetResource::Getting { row, get }, step),
                        Passed::Ended(_) => (
                            GetResource::Finished,
                            Step::Finish(Err(DatalithReadError::IOError(IoErrorKind::Other))),
                        ),
                    }
                },
                _ => (
                    GetResource::Finished,
                    Step::Finish(Err(DatalithReadError::IOError(IoErrorKind::Other))),
                ),
            },
            GetResource::Getting { row, get } => {
                let (next, step) = get.resume(reply);
                match step.pass() {
                    Passed::Ended(Ok(Some(file))) => (
                        GetResource::Finished,
                        Step::Finish(Ok(Some(DatalithResource::new(row, file)))),
                    ),
                    Passed::Ended(Ok(None)) => (GetResource::Finished, Step::Finish(Ok(None))),
                    Passed::Ended(Err(e)) => (GetResource::Finished, Step::Finish(Err(e))),
                    Passed::Request(step) => (GetResource::Getting { row, get: next }, step),
                }
            },
            GetResource::Finished => (
                GetResource::Finished,
                Step::Finish(Err(DatalithReadError::IOError(IoErrorKind::Other))),
            ),
        }
    }
}

/// Deleting a resource: the file of the resource is entered into the set of
/// files being deleted and its readers are waited for, as in a delete of the
/// file; then the row of the resource is deleted and the file loses the holder
/// that the resource was. The result tells whether the resource was there.
#[derive(Clone, Copy, Debug)]
pub enum DeleteResource {
    /// Asked for the file of the resource.
    Selecting { id: u128 },
    /// Asked to enter the file into the set of files being deleted.
    Acquiring { id: u128, file_id: u128 },
    /// Waiting before asking again.
    PausingForGuard { id: u128, file_id: u128 },
    /// Asked whether the file has more than one holder.
    CheckingShared { id: u128, file_id: u128 },
    /// Asked whether a reader pins the file.
    CheckingOpening { id: u128, file_id: u128 },
    /// Waiting before asking again.
    PausingForReaders { id: u128, file_id: u128 },
    /// Asked to delete the row of the resource.
    Deleting { id: u128, file_id: u128 },
    /// The file is losing its holder.
    Releasing { delete: DeleteFile },
    /// Asked to take the file out of the set of files being deleted.
    Unguarding { result: Result<bool, DatalithReadError> },
    /// Ended.
    Finished,
}

impl View for DeleteResource {
    type V = DeleteResource;

    open spec fn view(&self) -> DeleteResource {
        *self
    }
}

/// A state of a delete of a resource and the request it waits on.
pub type DeleteResourceTurn = (DeleteResource, StepView<Result<bool, DatalithReadError>>);

impl DeleteResource {
    /// The first state and request of deleting the resource `id`.
    pub open spec fn begin_spec(id: u128) -> DeleteResourceTurn {
        (
            DeleteResource::Selecting { id },
            StepView::Query(StatementView::SelectResourceFile { id }),
        )
    }

    /// The state in which the guard on the file is released before the
    /// delete ends.
    pub open spec fn unguard(file_id: u128, result: Result<bool, DatalithReadError>) -> DeleteResourceTurn {
        (
            DeleteResource::Unguarding { result },
            StepView::Guard(GuardRequestView::ReleaseDelete(file_id)),
        )
    }

    /// The state in which the row of the resource is deleted.
    pub open spec fn delete_row(id: u128, file_id: u128) -> DeleteResourceTurn {
        (
            DeleteResource::Deleting { id, file_id },
            StepView::Query(StatementView::DeleteResource { id }),
        )
    }

    /// The state and the request that follow a state and the reply to its
    /// request.
    pub open spec fn advance_spec(self, reply: ReplyView) -> DeleteResourceTurn {
        let io_other = Err(DatalithReadError::IOError(IoErrorKind::Other));
        let sql_other = Err(DatalithReadError::SQLError(SqlErrorKind::Other));
        match self {
            DeleteResource::Selecting { id } => match reply {
                ReplyView::Id(Some(file_id)) => (
                    DeleteResource::Acquiring { id, file_id },
                    StepView::Guard(GuardRequestView::AcquireDelete(file_id)),
                ),
                ReplyView::Id(None) => (DeleteResource::Finished, StepView::Finish(Ok(false))),
                ReplyView::SqlFailed(kind) => (
                    DeleteResource::Finished,
                    StepView::Finish(Err(DatalithReadError::SQLError(kind))),
                ),
                _ => (DeleteResource::Finished, StepView::Finish(sql_other)),
            },
            DeleteResource::Acquiring { id, file_id } => match reply {
                ReplyView::Flag(true) => (
                    DeleteResource::CheckingShared { id, file_id },
                    StepView::Query(StatementView::SelectFileShared { id: file_id }),
                ),
                ReplyView::Flag(false) => (
                    DeleteResource::PausingForGuard { id, file_id },
                    StepView::Pause,
                ),
                _ => (DeleteResource::Finished, StepView::Finish(io_other)),
            },
            DeleteResource::PausingForGuard { id, file_id } => (
                DeleteResource::Acquiring { id, file_id },
                StepView::Guard(GuardRequestView::AcquireDelete(file_id)),
            ),
            DeleteResource::CheckingShared { id, file_id } => match reply {
                ReplyView::Flag(true) => DeleteResource::delete_row(id, file_id),
                ReplyView::Flag(false) => (
                    DeleteResource::CheckingOpening { id, file_id },
                    StepView::Guard(GuardRequestView::IsOpening(file_id)),
                ),
                ReplyView::SqlFailed(kind) => DeleteResource::unguard(
                    file_id,
                    Err(DatalithReadError::SQLError(kind)),
                ),
                _ => DeleteResource::unguard(file_id, sql_other),
            },
            DeleteResource::CheckingOpening { id, file_id } => match reply {
                ReplyView::Flag(true) => (
                    DeleteResource::PausingForReaders { id, file_id },
                    StepView::Pause,
                ),
                ReplyView::Flag(false) => DeleteResource::delete_row(id, file_id),
                _ => DeleteResource::unguard(file_id, io_other),
            },
            DeleteResource::PausingForReaders { id, file_id } => (
                DeleteResource::CheckingOpening { id, file_id },
                StepView::Guard(GuardRequestView::IsOpening(file_id)),
            ),
            DeleteResource::Deleting { id, file_id } => match reply {
                ReplyView::Affected(n) => if n > 0 {
                    let (delete, step) = DeleteFile::begin_inner_spec(file_id);
                    (DeleteResource::Releasing { delete }, step.pass())
                } else {
                    DeleteResource::unguard(file_id, Ok(false))
                },
                ReplyView::SqlFailed(kind) => DeleteResource::unguard(
                    file_id,
                    Err(DatalithReadError::SQLError(kind)),
                ),
                _ => DeleteResource::unguard(file_id, sql_other),
            },
            DeleteResource::Releasing { delete } => {
                let (next, step) = DeleteFile::advance(delete, reply);
                match step {
                    StepView::Finish(Ok(_)) => (
                        DeleteResource::Finished,
                        StepView::Finish(Ok(true)),
                    ),
                    StepView::Finish(Err(e)) => (
                        DeleteResource::Finished,
                        StepView::Finish(Err(e)),
                    ),
                    _ => (DeleteResource::Releasing { delete: next }, step.pass()),
                }
            },
            DeleteResource::Unguarding { result } => (
                DeleteResource::Finished,
                StepView::Finish(result),
            ),
            DeleteResource::Finished => (DeleteResource::Finished, StepView::Finish(io_other)),
        }
    }

    /// Begins to delete the resource `id`.
    pub fn begin(id: u128) -> (r: (DeleteResource, Step<Result<bool, DatalithReadError>>))
        ensures
            r.0 == DeleteResource::begin_spec(id).0,
            r.1.view_with(|o| o) == DeleteResource::begin_spec(id).1,
    {
        (DeleteResource::Selecting { id }, Step::Query(Statement::SelectResourceFile { id }))
    }
}

fn unguard(file_id: u128, result: Result<bool, DatalithReadError>) -> (r: (
    DeleteResource,
    Step<Result<bool, DatalithReadError>>,
))
    ensures
        r.0 == DeleteResource::unguard(file_id, result).0,
        r.1.view_with(|o| o) == DeleteResource::unguard(file_id, result).1,
{
    (DeleteResource::Unguarding { result }, Step::Guard(GuardRequest::ReleaseDelete(file_id)))
}

fn delete_row(id: u128, file_id: u128) -> (r: (
    DeleteResource,
    Step<Result<bool, DatalithReadError>>,
))
    ensures
        r.0 == DeleteResource::delete_row(id, file_id).0,
        r.1.view_with(|o| o) == DeleteResource::delete_row(id, file_id).1,
{
    (DeleteResource::Deleting { id, file_id }, Step::Query(Statement::DeleteResource { id }))
}

impl Operation for DeleteResource {
    type Output = Result<bool, DatalithReadError>;

    type OutputView = Result<bool, DatalithReadError>;

    open spec fn output_view(output: Self::Output) -> Self::OutputView {
        output
    }

    open spec fn advance(state: DeleteResource, reply: ReplyView) -> DeleteResourceTurn {
        state.advance_spec(reply)
    }

    fn resume(self, reply: Reply) -> (r: (DeleteResource, Step<Self::Output>)) {
        let io_other = Err(DatalithReadError::IOError(IoErrorKind::Other));
        let sql_other = Err(DatalithReadError::SQLError(SqlErrorKind::Other));
        match self {
            DeleteResource::Selecting { id } => match reply {
                Reply::Id(Some(file_id)) => (
                    DeleteResource::Acquiring { id, file_id },
                    Step::Guard(GuardRequest::AcquireDelete(file_id)),
                ),
                Reply::Id(None) => (DeleteResource::Finished, Step::Finish(Ok(false))),
                Reply::SqlFailed(kind) => (
                    DeleteResource::Finished,
                    Step::Finish(Err(DatalithReadError::SQLError(kind))),
                ),
                _ => (DeleteResource::Finished, Step::Finish(sql_other)),
            },
            DeleteResource::Acquiring { id, file_id } => match reply {
                Reply::Flag(true) => (
                    DeleteResource::CheckingShared { id, file_id },
                    Step::Query(Statement::SelectFileShared { id: file_id }),
                ),
                Reply::Flag(false) => (DeleteResource::PausingForGuard { id, file_id }, Step::Pause),
                _ => (DeleteResource::Finished, Step::Finish(io_other)),
            },
            DeleteResource::PausingForGuard { id, file_id } => (
                DeleteResource::Acquiring { id, file_id },
                Step::Guard(GuardRequest::AcquireDelete(file_id)),
            ),
            DeleteResource::CheckingShared { id, file_id } => match reply {
                Reply::Flag(true) => delete_row(id, file_id),
                Reply::Flag(false) => (
                    DeleteResource::CheckingOpening { id, file_id },
                    Step::Guard(GuardRequest::IsOpening(file_id)),
                ),
                Reply::SqlFailed(kind) => unguard(file_id, Err(DatalithReadError::SQLError(kind))),
                _ => unguard(file_id, sql_other),
            },
            DeleteResource::CheckingOpening { id, file_id } => match reply {
                Reply::Flag(true) => (
                    DeleteResource::PausingForReaders { id, file_id },
                    Step::Pause,
                ),
                Reply::Flag(false) => delete_row(id, file_id),
                _ => unguard(file_id, io_other),
            },
            DeleteResource::PausingForReaders { id, file_id } => (
                DeleteResource::CheckingOpening { id, file_id },
                Step::Guard(GuardRequest::IsOpening(file_id)),
            ),
            DeleteResource::Deleting { id, file_id } => match reply {
                Reply::Affected(n) => if n > 0 {
                    let (delete, step) = DeleteFile::begin_inner(file_id);
                    match step.pass() {
                        Passed::Request(step) => (DeleteResource::Releasing { delete }, step),
                        Passed::Ended(_) => (DeleteResource::Finished, Step::Finish(io_other)),
                    }
                } else {
                    unguard(file_id, Ok(false))
                },
                Reply::SqlFailed(kind) => unguard(file_id, Err(DatalithReadError::SQLError(kind))),
                _ => unguard(file_id, sql_other),
            },
            DeleteResource::Releasing { delete } => {
                let (next, step) = delete.resume(reply);
                match step.pass() {
                    Passed::Ended(Ok(_)) => (DeleteResource::Finished, Step::Finish(Ok(true))),
                    Passed::Ended(Err(e)) => (DeleteResource::Finished, Step::Finish(Err(e))),
                    Passed::Request(step) => (DeleteResource::Releasing { delete: next }, step),
                }
            },
            DeleteResource::Unguarding { result } => (
                DeleteResource::Finished,
                Step::Finish(result),
            ),
            DeleteResource::Finished => (DeleteResource::Finished, Step::Finish(io_other)),
        }
    }
}

} // verus!
