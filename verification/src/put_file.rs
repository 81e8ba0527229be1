//! Putting a file into the store.

use vstd::prelude::*;
use crate::datalith_errors::DatalithWriteError;
use crate::datalith_errors::DatalithWriteErrorView;
use crate::datalith_errors::IoErrorKind;
use crate::datalith_errors::SqlErrorKind;
use crate::datalith_file::handle_of;
use crate::datalith_file::DatalithFile;
use crate::datalith_file::DatalithFileView;
use crate::datalith_file::FileRecord;
use crate::datalith_file::FileRow;
use crate::functions::declared_view;
use crate::functions::derived_file_name;
use crate::functions::detection_wanted;
use crate::functions::get_file_name;
use crate::functions::handle_file_type;
use crate::functions::needs_detection;
use crate::functions::resolved_file_type;
use crate::functions::FileHash;
use crate::guard::GuardRequest;
use crate::guard::GuardRequestView;
use crate::media_type::extension_media_type;
use crate::media_type::mime_parse;
use crate::media_type::FileTypeLevel;
use crate::media_type::MediaType;
use crate::media_type::MediaTypeView;
use crate::operation::Operation;
use crate::step::Directory;
use crate::step::FileOperation;
use crate::step::FileOperationView;
use crate::step::Payload;
use crate::step::PayloadView;
use crate::step::Reply;
use crate::step::ReplyView;
use crate::step::Statement;
use crate::step::StatementView;
use crate::step::Step;
use crate::step::StepView;
use crate::text::file_extension;
use crate::text::file_name_of_path;
use crate::text::path_extension;
use crate::text::path_file_name;

verus! {

/// What is put: a payload, with what the caller says of it.
#[derive(Debug)]
pub struct PutRequest {
    /// Where the payload comes from.
    pub payload: Payload,
    /// The hash of the payload, or random bytes for a temporary file.
    pub hash: FileHash,
    /// The identifier of the file, should a row be inserted.
    pub id: u128,
    /// The size of the payload in bytes. The size of a payload at a path is
    /// measured when the row is made.
    pub file_size: u64,
    pub file_name: Option<String>,
    pub file_type: Option<(MediaType, FileTypeLevel)>,
    /// Whether the file is temporary.
    pub temporary: bool,
    /// The lifespan of a temporary file in milliseconds.
    pub lifespan: u64,
}

/// The mathematical value of a put request.
pub struct PutRequestView {
    pub payload: PayloadView,
    pub hash: FileHash,
    pub id: u128,
    pub file_size: u64,
    pub file_name: Option<Seq<char>>,
    pub file_type: Option<(MediaTypeView, FileTypeLevel)>,
    pub temporary: bool,
    pub lifespan: u64,
}

/// The mathematical value of a text that may be absent.
pub open spec fn text_view(text: Option<String>) -> Option<Seq<char>> {
    match text {
        Some(text) => Some(text@),
        None => None,
    }
}

impl View for PutRequest {
    type V = PutRequestView;

    open spec fn view(&self) -> PutRequestView {
        PutRequestView {
            payload: self.payload@,
            hash: self.hash,
            id: self.id,
            file_size: self.file_size,
            file_name: text_view(self.file_name),
            file_type: declared_view(self.file_type),
            temporary: self.temporary,
            lifespan: self.lifespan,
        }
    }
}

/// The mathematical value of the result of a put.
pub open spec fn put_result_view(r: Result<DatalithFile, DatalithWriteError>) -> Result<
    DatalithFileView,
    DatalithWriteErrorView,
> {
    match r {
        Ok(file) => Ok(file@),
        Err(e) => Err(e@),
    }
}

/// The time at which a temporary file created at `now` expires: `now` plus
/// the lifespan, and never beyond the largest time.
pub open spec fn expiry_of(now: i64, lifespan: u64) -> i64 {
    if now + lifespan > i64::MAX {
        i64::MAX
    } else {
        (now + lifespan) as i64
    }
}

/// Computes the time at which a temporary file created at `now` expires.
pub fn get_expired_timestamp(now: i64, lifespan: u64) -> (r: i64)
    ensures
        r == expiry_of(now, lifespan),
{
    let sum: i128 = now as i128 + lifespan as i128;
    if sum > i64::MAX as i128 {
        i64::MAX
    } else {
        sum as i64
    }
}

/// Putting a file. A permanent payload is first looked up by its hash,
/// under a guard on the hash: where a live file has it, that file gains a
/// holder. Else a row is inserted, the file is pinned, the payload is stored
/// as its blob and the transaction is committed. The pin stays with the handle
/// that is returned.
#[derive(Debug)]
pub enum PutFile {
    /// Asked to guard the hash.
    AcquiringPut { request: PutRequest },
    /// Waiting before asking again.
    PausingForPut { request: PutRequest },
    /// Asked for the time of the lookup.
    ReadingLookupClock { request: PutRequest },
    /// Asked for a live file with the hash.
    LookingUp { request: PutRequest, now: i64 },
    /// Asked to pin the file found.
    PinningFound { request: PutRequest, row: FileRow, now: i64 },
    /// Asked whether the file found is being deleted.
    CheckingFound { request: PutRequest, row: FileRow, now: i64 },
    /// Asked to unpin the file found, which is being deleted.
    UnpinningFound { request: PutRequest },
    /// Asked to consume the file found, which is temporary.
    Expiring { request: PutRequest, row: FileRow },
    /// Asked to add a holder to the file found.
    Incrementing { request: PutRequest, row: FileRow, is_temporary: bool },
    /// Asked for the time of creation.
    ReadingClock { request: PutRequest },
    /// Asked for the size of the payload at a path.
    Measuring { request: PutRequest, now: i64 },
    /// Asked for the canonical form of the path of the payload.
    Resolving { request: PutRequest, now: i64 },
    /// Asked the magic database for the type of the payload.
    Sniffing { request: PutRequest, now: i64, canonical: Option<String> },
    /// Asked to open a transaction.
    Beginning { row: FileRow, payload: Payload, guard: Option<FileHash> },
    /// Asked to insert the row.
    Inserting { row: FileRow, payload: Payload, guard: Option<FileHash> },
    /// Asked to make sure of the directory of blobs.
    Preparing { row: FileRow, payload: Payload, guard: Option<FileHash> },
    /// Asked to pin the new file.
    Pinning { row: FileRow, payload: Payload, guard: Option<FileHash> },
    /// Asked to store the payload as the blob.
    Storing { row: FileRow, guard: Option<FileHash> },
    /// Asked to commit.
    Committing { row: FileRow, guard: Option<FileHash> },
    /// Giving back what is held before the operation ends: the transaction is
    /// abandoned, the file unpinned and the guard on the hash released, as far
    /// as each is still due.
    Cleaning {
        rollback: bool,
        unpin: Option<u128>,
        release: Option<FileHash>,
        result: Result<DatalithFile, DatalithWriteError>,
    },
    /// Ended.
    Finished,
}

/// The mathematical value of the state of a put.
pub enum PutFileView {
    AcquiringPut { request: PutRequestView },
    PausingForPut { request: PutRequestView },
    ReadingLookupClock { request: PutRequestView },
    LookingUp { request: PutRequestView, now: i64 },
    PinningFound { request: PutRequestView, row: FileRecord, now: i64 },
    CheckingFound { request: PutRequestView, row: FileRecord, now: i64 },
    UnpinningFound { request: PutRequestView },
    Expiring { request: PutRequestView, row: FileRecord },
    Incrementing { request: PutRequestView, row: FileRecord, is_temporary: bool },
    ReadingClock { request: PutRequestView },
    Measuring { request: PutRequestView, now: i64 },
    Resolving { request: PutRequestView, now: i64 },
    Sniffing { request: PutRequestView, now: i64, canonical: Option<Seq<char>> },
    Beginning { row: FileRecord, payload: PayloadView, guard: Option<FileHash> },
    Inserting { row: FileRecord, payload: PayloadView, guard: Option<FileHash> },
    Preparing { row: FileRecord, payload: PayloadView, guard: Option<FileHash> },
    Pinning { row: FileRecord, payload: PayloadView, guard: Option<FileHash> },
    Storing { row: FileRecord, guard: Option<FileHash> },
    Committing { row: FileRecord, guard: Option<FileHash> },
    Cleaning {
        rollback: bool,
        unpin: Option<u128>,
        release: Option<FileHash>,
        result: Result<DatalithFileView, DatalithWriteErrorView>,
    },
    Finished,
}

impl View for PutFile {
    type V = PutFileView;

    open spec fn view(&self) -> PutFileView {
        match *self {
            PutFile::AcquiringPut { request } => PutFileView::AcquiringPut { request: request@ },
            PutFile::PausingForPut { request } => PutFileView::PausingForPut { request: request@ },
            PutFile::ReadingLookupClock { request } => PutFileView::ReadingLookupClock {
                request: request@,
            },
            PutFile::LookingUp { request, now } => PutFileView::LookingUp { request: request@, now },
            PutFile::PinningFound { request, row, now } => PutFileView::PinningFound {
                request: request@,
                row: row@,
                now,
            },
            PutFile::CheckingFound { request, row, now } => PutFileView::CheckingFound {
                request: request@,
                row: row@,
                now,
            },
            PutFile::UnpinningFound { request } => PutFileView::UnpinningFound {
                request: request@,
            },
            PutFile::Expiring { request, row } => PutFileView::Expiring {
                request: request@,
                row: row@,
            },
            PutFile::Incrementing { request, row, is_temporary } => PutFileView::Incrementing {
                request: request@,
                row: row@,
                is_temporary,
            },
            PutFile::ReadingClock { request } => PutFileView::ReadingClock { request: request@ },
            PutFile::Measuring { request, now } => PutFileView::Measuring { request: request@, now },
            PutFile::Resolving { request, now } => PutFileView::Resolving { request: request@, now },
            PutFile::Sniffing { request, now, canonical } => PutFileView::Sniffing {
                request: request@,
                now,
                canonical: text_view(canonical),
            },
            PutFile::Beginning { row, payload, guard } => PutFileView::Beginning {
                row: row@,
                payload: payload@,
                guard,
            },
            PutFile::Inserting { row, payload, guard } => PutFileView::Inserting {
                row: row@,
                payload: payload@,
                guard,
            },
            PutFile::Preparing { row, payload, guard } => PutFileView::Preparing {
                row: row@,
                payload: payload@,
                guard,
            },
            PutFile::Pinning { row, payload, guard } => PutFileView::Pinning {
                row: row@,
                payload: payload@,
                guard,
            },
            PutFile::Storing { row, guard } => PutFileView::Storing { row: row@, guard },
            PutFile::Committing { row, guard } => PutFileView::Committing { row: row@, guard },
            PutFile::Cleaning { rollback, unpin, release, result } => PutFileView::Cleaning {
                rollback,
                unpin,
                release,
                result: put_result_view(result),
            },
            PutFile::Finished => PutFileView::Finished,
        }
    }
}

/// A state and the request it waits on, as mathematical values.
pub type PutTurn = (PutFileView, StepView<Result<DatalithFileView, DatalithWriteErrorView>>);

/// The guard on the hash that a put holds: none for a temporary file.
pub open spec fn guard_of(request: PutRequestView) -> Option<FileHash> {
    if request.temporary {
        None
    } else {
        Some(request.hash)
    }
}

/// The media type that detection arrives at: what the magic database said,
/// where it said anything, and else, for a payload at a path, the type listed
/// for the extension of the canonical path.
pub open spec fn detected_type(
    payload: PayloadView,
    canonical: Option<Seq<char>>,
    sniffed: Option<Seq<char>>,
) -> Option<MediaTypeView> {
    match sniffed {
        Some(text) => match mime_parse(text) {
            Some((text, essence, subtype)) => Some(MediaTypeView { text, essence, subtype }),
            None => None,
        },
        None => match (payload, canonical) {
            (PayloadView::Path(_), Some(path)) => match path_extension(path) {
                Some(ext) => {
                    let (text, essence, subtype) = extension_media_type(ext);
                    Some(MediaTypeView { text, essence, subtype })
                },
                None => None,
            },
            _ => None,
        },
    }
}

/// The name under which a payload is stored. A payload at a path that is
/// given no name keeps the final component of its path; any other name is
/// derived from the name given, the time and the media type.
pub open spec fn payload_file_name(
    payload: PayloadView,
    file_name: Option<Seq<char>>,
    now: i64,
    file_type: MediaTypeView,
) -> Seq<char> {
    match (payload, file_name) {
        (PayloadView::Path(path), None) => match path_file_name(path) {
            Some(name) => name,
            None => derived_file_name(Seq::empty(), now, file_type),
        },
        (_, Some(name)) => derived_file_name(name, now, file_type),
        (_, None) => derived_file_name(Seq::empty(), now, file_type),
    }
}

/// Names a payload that is stored.
pub fn get_payload_file_name(
    payload: &Payload,
    file_name: Option<String>,
    now: i64,
    file_type: &MediaType,
) -> (r: String)
    ensures
        r@ == payload_file_name(payload@, text_view(file_name), now, file_type@),
{
    let path_name: Option<String> = match (payload, &file_name) {
        (Payload::Path(path), None) => file_name_of_path(path.as_str()),
        _ => None,
    };
    match path_name {
        Some(name) => name,
        None => get_file_name(file_name, now, file_type),
    }
}

/// The name under which a new file is stored.
pub open spec fn stored_file_name(request: PutRequestView, now: i64, file_type: MediaTypeView) -> Seq<
    char,
> {
    payload_file_name(request.payload, request.file_name, now, file_type)
}

/// The row of a new file: one holder, and an expiry where it is temporary.
pub open spec fn new_row(request: PutRequestView, now: i64, file_type: MediaTypeView) -> FileRecord {
    FileRecord {
        id: request.id,
        hash: request.hash,
        created_at: now,
        file_size: request.file_size,
        file_type,
        file_name: stored_file_name(request, now, file_type),
        expired_at: if request.temporary {
            Some(expiry_of(now, request.lifespan))
        } else {
            None
        },
        count: 1,
    }
}

impl PutFileView {
    /// Gives back what is still held, one request at a time, then ends with
    /// the result.
    pub open spec fn clean(
        rollback: bool,
        unpin: Option<u128>,
        release: Option<FileHash>,
        result: Result<DatalithFileView, DatalithWriteErrorView>,
    ) -> PutTurn {
        if rollback {
            (
                PutFileView::Cleaning { rollback: false, unpin, release, result },
                StepView::Query(StatementView::Rollback),
            )
        } else if unpin is Some {
            (
                PutFileView::Cleaning { rollback, unpin: None, release, result },
                StepView::Guard(GuardRequestView::ReleaseOpen(unpin.unwrap())),
            )
        } else if release is Some {
            (
                PutFileView::Cleaning { rollback, unpin, release: None, result },
                StepView::Guard(GuardRequestView::ReleasePut(release.unwrap())),
            )
        } else {
            (PutFileView::Finished, StepView::Finish(result))
        }
    }

    /// The first state and request of a put.
    pub open spec fn begin(request: PutRequestView) -> PutTurn {
        if request.temporary {
            PutFileView::create(request)
        } else {
            (
                PutFileView::AcquiringPut { request },
                StepView::Guard(GuardRequestView::AcquirePut(request.hash)),
            )
        }
    }

    /// The first state and request of creating a file.
    pub open spec fn create(request: PutRequestView) -> PutTurn {
        (PutFileView::ReadingClock { request }, StepView::Clock)
    }

    /// After the time of creation is known: a payload at a path is measured;
    /// any other goes on to detection.
    pub open spec fn measure(request: PutRequestView, now: i64) -> PutTurn {
        match request.payload {
            PayloadView::Path(path) => (
                PutFileView::Measuring { request, now },
                StepView::File(FileOperationView::Measure(path)),
            ),
            _ => PutFileView::detect(request, now),
        }
    }

    /// After the size is known: where the declaration wants it, the type of
    /// the payload is detected; else the row is made at once.
    pub open spec fn detect(request: PutRequestView, now: i64) -> PutTurn {
        if detection_wanted(request.file_type) {
            match request.payload {
                PayloadView::Path(path) => (
                    PutFileView::Resolving { request, now },
                    StepView::File(FileOperationView::Canonicalize(path)),
                ),
                _ => (
                    PutFileView::Sniffing { request, now, canonical: None },
                    StepView::File(FileOperationView::Sniff(request.payload)),
                ),
            }
        } else {
            PutFileView::insert(request, now, None)
        }
    }

    /// After detection: the type is resolved and the row is made, or the put
    /// ends with the error of the resolution.
    pub open spec fn insert(request: PutRequestView, now: i64, detected: Option<MediaTypeView>) -> PutTurn {
        match resolved_file_type(request.file_type, detected) {
            Ok(file_type) => (
                PutFileView::Beginning {
                    row: new_row(request, now, file_type),
                    payload: request.payload,
                    guard: guard_of(request),
                },
                StepView::Query(StatementView::Begin),
            ),
            Err(e) => PutFileView::clean(false, None, guard_of(request), Err(e)),
        }
    }

    /// The error of a reply that tells a failure, or that does not answer
    /// the request; `statement` tells whether the request was a statement.
    pub open spec fn failure(reply: ReplyView, statement: bool) -> DatalithWriteErrorView {
        match reply {
            ReplyView::IoFailed(kind) => DatalithWriteErrorView::IOError(kind),
            ReplyView::SqlFailed(kind) => DatalithWriteErrorView::SQLError(kind),
            _ => if statement {
                DatalithWriteErrorView::SQLError(SqlErrorKind::Other)
            } else {
                DatalithWriteErrorView::IOError(IoErrorKind::Other)
            },
        }
    }

    /// The state and the request that follow a state and the reply to its
    /// request.
    pub open spec fn advance(self, reply: ReplyView) -> PutTurn {
        match self {
            PutFileView::AcquiringPut { request } => match reply {
                ReplyView::Flag(true) => (
                    PutFileView::ReadingLookupClock { request },
                    StepView::Clock,
                ),
                ReplyView::Flag(false) => (PutFileView::PausingForPut { request }, StepView::Pause),
                _ => PutFileView::clean(false, None, None, Err(PutFileView::failure(reply, false))),
            },
            PutFileView::PausingForPut { request } => (
                PutFileView::AcquiringPut { request },
                StepView::Guard(GuardRequestView::AcquirePut(request.hash)),
            ),
            PutFileView::ReadingLookupClock { request } => match reply {
                ReplyView::Time(now) => (
                    PutFileView::LookingUp { request, now },
                    StepView::Query(
                        StatementView::SelectLiveFileByHash { hash: request.hash, now },
                    ),
                ),
                _ => PutFileView::clean(
                    false,
                    None,
                    guard_of(request),
                    Err(PutFileView::failure(reply, false)),
                ),
            },
            PutFileView::LookingUp { request, now } => match reply {
                ReplyView::File(Some(row)) => (
                    PutFileView::PinningFound { request, row, now },
                    StepView::Guard(GuardRequestView::AcquireOpen(row.id)),
                ),
                ReplyView::File(None) => PutFileView::create(request),
                _ => PutFileView::clean(
                    false,
                    None,
                    guard_of(request),
                    Err(PutFileView::failure(reply, true)),
                ),
            },
            PutFileView::PinningFound { request, row, now } => match reply {
                ReplyView::Flag(true) => (
                    PutFileView::CheckingFound { request, row, now },
                    StepView::Guard(GuardRequestView::IsDeleting(row.id)),
                ),
                _ => PutFileView::clean(
                    false,
                    None,
                    guard_of(request),
                    Err(PutFileView::failure(reply, false)),
                ),
            },
            PutFileView::CheckingFound { request, row, now } => match reply {
                ReplyView::Flag(true) => (
                    PutFileView::UnpinningFound { request },
                    StepView::Guard(GuardRequestView::ReleaseOpen(row.id)),
                ),
                ReplyView::Flag(false) => if row.expired_at is Some {
                    (
                        PutFileView::Expiring { request, row },
                        StepView::Query(StatementView::ExpireFile { id: row.id, now }),
                    )
                } else {
                    (
                        PutFileView::Incrementing { request, row, is_temporary: false },
                        StepView::Query(StatementView::IncrementFileCount { id: row.id }),
                    )
                },
                _ => PutFileView::clean(
                    false,
                    Some(row.id),
                    guard_of(request),
                    Err(PutFileView::failure(reply, false)),
                ),
            },
            PutFileView::UnpinningFound { request } => PutFileView::create(request),
            PutFileView::Expiring { request, row } => match reply {
                ReplyView::Affected(_) => (
                    PutFileView::Incrementing { request, row, is_temporary: true },
                    StepView::Query(StatementView::IncrementFileCount { id: row.id }),
                ),
                _ => PutFileView::clean(
                    false,
                    Some(row.id),
                    guard_of(request),
                    Err(PutFileView::failure(reply, true)),
                ),
            },
            PutFileView::Incrementing { request, row, is_temporary } => match reply {
                ReplyView::Affected(_) => PutFileView::clean(
                    false,
                    None,
                    guard_of(request),
                    Ok(handle_of(row, is_temporary, false)),
                ),
                _ => PutFileView::clean(
                    false,
                    Some(row.id),
                    guard_of(request),
                    Err(PutFileView::failure(reply, true)),
                ),
            },
            PutFileView::ReadingClock { request } => match reply {
                ReplyView::Time(now) => PutFileView::measure(request, now),
                _ => PutFileView::clean(
                    false,
                    None,
                    guard_of(request),
                    Err(PutFileView::failure(reply, false)),
                ),
            },
            PutFileView::Measuring { request, now } => match reply {
                ReplyView::Size(file_size) => PutFileView::detect(
                    PutRequestView { file_size, ..request },
                    now,
                ),
                _ => PutFileView::clean(
                    false,
                    None,
                    guard_of(request),
                    Err(PutFileView::failure(reply, false)),
                ),
            },
            PutFileView::Resolving { request, now } => match reply {
                ReplyView::Text(Some(path)) => (
                    PutFileView::Sniffing { request, now, canonical: Some(path) },
                    StepView::File(FileOperationView::Sniff(PayloadView::Path(path))),
                ),
                _ => PutFileView::insert(request, now, None),
            },
            PutFileView::Sniffing { request, now, canonical } => match reply {
                ReplyView::Text(sniffed) => PutFileView::insert(
                    request,
                    now,
                    detected_type(request.payload, canonical, sniffed),
                ),
                _ => PutFileView::insert(
                    request,
                    now,
                    detected_type(request.payload, canonical, None),
                ),
            },
            PutFileView::Beginning { row, payload, guard } => match reply {
                ReplyView::Done => (
                    PutFileView::Inserting { row, payload, guard },
                    StepView::Query(StatementView::InsertFile(row)),
                ),
                _ => PutFileView::clean(false, None, guard, Err(PutFileView::failure(reply, true))),
            },
            PutFileView::Inserting { row, payload, guard } => match reply {
                ReplyView::Affected(_) => (
                    PutFileView::Preparing { row, payload, guard },
                    StepView::File(FileOperationView::EnsureDirectory(Directory::Files)),
                ),
                _ => PutFileView::clean(true, None, guard, Err(PutFileView::failure(reply, true))),
            },
            PutFileView::Preparing { row, payload, guard } => match reply {
                ReplyView::Done => (
                    PutFileView::Pinning { row, payload, guard },
                    StepView::Guard(GuardRequestView::AcquireOpen(row.id)),
                ),
                _ => PutFileView::clean(true, None, guard, Err(PutFileView::failure(reply, false))),
            },
            PutFileView::Pinning { row, payload, guard } => match reply {
                ReplyView::Flag(true) => (
                    PutFileView::Storing { row, guard },
                    StepView::File(FileOperationView::StoreBlob { id: row.id, payload }),
                ),
                _ => PutFileView::clean(true, None, guard, Err(PutFileView::failure(reply, false))),
            },
            PutFileView::Storing { row, guard } => match reply {
                ReplyView::Done => (
                    PutFileView::Committing { row, guard },
                    StepView::Query(StatementView::Commit),
                ),
                _ => PutFileView::clean(
                    true,
                    Some(row.id),
                    guard,
                    Err(PutFileView::failure(reply, false)),
                ),
            },
            PutFileView::Committing { row, guard } => match reply {
                ReplyView::Done => PutFileView::clean(
                    false,
                    None,
                    guard,
                    Ok(handle_of(row, row.expired_at is Some, true)),
                ),
                _ => PutFileView::clean(
                    false,
                    Some(row.id),
                    guard,
                    Err(PutFileView::failure(reply, true)),
                ),
            },
            PutFileView::Cleaning { rollback, unpin, release, result } => PutFileView::clean(
                rollback,
                unpin,
                release,
                result,
            ),
            PutFileView::Finished => (
                PutFileView::Finished,
                StepView::Finish(Err(DatalithWriteErrorView::IOError(IoErrorKind::Other))),
            ),
        }
    }
}

/// A state and the request it waits on.
pub type PutNext = (PutFile, Step<Result<DatalithFile, DatalithWriteError>>);

/// Whether a state and a request have the given mathematical values.
pub open spec fn put_turn_is(next: PutNext, turn: PutTurn) -> bool {
    &&& next.0@ == turn.0
    &&& next.1.view_with(|o| put_result_view(o)) == turn.1
}

fn clean(
    rollback: bool,
    unpin: Option<u128>,
    release: Option<FileHash>,
    result: Result<DatalithFile, DatalithWriteError>,
) -> (r: PutNext)
    ensures
        put_turn_is(r, PutFileView::clean(rollback, unpin, release, put_result_view(result))),
{
    if rollback {
        (
            PutFile::Cleaning { rollback: false, unpin, release, result },
            Step::Query(Statement::Rollback),
        )
    } else if let Some(id) = unpin {
        (
            PutFile::Cleaning { rollback, unpin: None, release, result },
            Step::Guard(GuardRequest::ReleaseOpen(id)),
        )
    } else if let Some(hash) = release {
        (
            PutFile::Cleaning { rollback, unpin, release: None, result },
            Step::Guard(GuardRequest::ReleasePut(hash)),
        )
    } else {
        (PutFile::Finished, Step::Finish(result))
    }
}

fn failure(reply: &Reply, statement: bool) -> (e: DatalithWriteError)
    ensures
        e@ == PutFileView::failure(reply@, statement),
{
    match reply {
        Reply::IoFailed(kind) => DatalithWriteError::IOError(*kind),
        Reply::SqlFailed(kind) => DatalithWriteError::SQLError(*kind),
        _ => if statement {
            DatalithWriteError::SQLError(SqlErrorKind::Other)
        } else {
            DatalithWriteError::IOError(IoErrorKind::Other)
        },
    }
}

fn guard_for(request: &PutRequest) -> (r: Option<FileHash>)
    ensures
        r == guard_of(request@),
{
    if request.temporary {
        None
    } else {
        Some(request.hash)
    }
}

fn create(request: PutRequest) -> (r: PutNext)
    ensures
        put_turn_is(r, PutFileView::create(request@)),
{
    (PutFile::ReadingClock { request }, Step::Clock)
}

fn detect_type(payload: &Payload, canonical: &Option<String>, sniffed: Option<String>) -> (r:
    Option<MediaType>)
    ensures
        crate::functions::optional_type_view(r) == detected_type(
            payload@,
            text_view(*canonical),
            text_view(sniffed),
        ),
{
    match sniffed {
        Some(text) => MediaType::parse(text.as_str()),
        None => match (payload, canonical) {
            (Payload::Path(_), Some(path)) => match file_extension(path.as_str()) {
                Some(ext) => Some(MediaType::from_extension(ext.as_str())),
                None => None,
            },
            _ => None,
        },
    }
}

fn insert(request: PutRequest, now: i64, detected: Option<MediaType>) -> (r: PutNext)
    ensures
        put_turn_is(
            r,
            PutFileView::insert(request@, now, crate::functions::optional_type_view(detected)),
        ),
{
    let guard = guard_for(&request);
    let PutRequest { payload, hash, id, file_size, file_name, file_type, temporary, lifespan } =
        request;
    match handle_file_type(file_type, detected) {
        Ok(file_type) => {
            let file_name = get_payload_file_name(&payload, file_name, now, &file_type);
            let expired_at = if temporary {
                Some(get_expired_timestamp(now, lifespan))
            } else {
                None
            };
            let row = FileRow {
                id,
                hash,
                created_at: now,
                file_size,
                file_type,
                file_name,
                expired_at,
                count: 1,
            };
            (PutFile::Beginning { row, payload, guard }, Step::Query(Statement::Begin))
        },
        Err(e) => clean(false, None, guard, Err(e)),
    }
}

fn detect(request: PutRequest, now: i64) -> (r: PutNext)
    ensures
        put_turn_is(r, PutFileView::detect(request@, now)),
{
    if needs_detection(&request.file_type) {
        match &request.payload {
            Payload::Path(path) => {
                let path = path.clone();
                (
                    PutFile::Resolving { request, now },
                    Step::File(FileOperation::Canonicalize(path)),
                )
            },
            _ => {
                let payload = request.payload.duplicate();
                (
                    PutFile::Sniffing { request, now, canonical: None },
                    Step::File(FileOperation::Sniff(payload)),
                )
            },
        }
    } else {
        insert(request, now, None)
    }
}

fn measure(request: PutRequest, now: i64) -> (r: PutNext)
    ensures
        put_turn_is(r, PutFileView::measure(request@, now)),
{
    match &request.payload {
        Payload::Path(path) => {
            let path = path.clone();
            (PutFile::Measuring { request, now }, Step::File(FileOperation::Measure(path)))
        },
        _ => detect(request, now),
    }
}

impl PutFile {
    /// Begins a put.
    pub fn begin(request: PutRequest) -> (r: PutNext)
        ensures
            put_turn_is(r, PutFileView::begin(request@)),
    {
        if request.temporary {
            create(request)
        } else {
            let hash = request.hash;
            (PutFile::AcquiringPut { request }, Step::Guard(GuardRequest::AcquirePut(hash)))
        }
    }
}

/// Resumes a put that looks for a file with the hash of the payload.
fn resume_found(state: PutFile, reply: Reply) -> (r: PutNext)
    requires
        state is AcquiringPut || state is PausingForPut || state is ReadingLookupClock || state is LookingUp || state is PinningFound || state is CheckingFound || state is UnpinningFound || state is Expiring || state is Incrementing,
    ensures
        put_turn_is(r, state@.advance(reply@)),
{
    match state {
        PutFile::AcquiringPut { request } => match reply {
            Reply::Flag(true) => (PutFile::ReadingLookupClock { request }, Step::Clock),
            Reply::Flag(false) => (PutFile::PausingForPut { request }, Step::Pause),
            _ => clean(false, None, None, Err(failure(&reply, false))),
        },
        PutFile::PausingForPut { request } => {
            let hash = request.hash;
            (PutFile::AcquiringPut { request }, Step::Guard(GuardRequest::AcquirePut(hash)))
        },
        PutFile::ReadingLookupClock { request } => match reply {
            Reply::Time(now) => {
                let hash = request.hash;
                (
                    PutFile::LookingUp { request, now },
                    Step::Query(Statement::SelectLiveFileByHash { hash, now }),
                )
            },
            _ => clean(false, None, guard_for(&request), Err(failure(&reply, false))),
        },
        PutFile::LookingUp { request, now } => match reply {
            Reply::File(Some(row)) => {
                let id = row.id;
                (
                    PutFile::PinningFound { request, row, now },
                    Step::Guard(GuardRequest::AcquireOpen(id)),
                )
            },
            Reply::File(None) => create(request),
            _ => clean(false, None, guard_for(&request), Err(failure(&reply, true))),
        },
        PutFile::PinningFound { request, row, now } => match reply {
            Reply::Flag(true) => {
                let id = row.id;
                (
                    PutFile::CheckingFound { request, row, now },
                    Step::Guard(GuardRequest::IsDeleting(id)),
                )
            },
            _ => clean(false, None, guard_for(&request), Err(failure(&reply, false))),
        },
        PutFile::CheckingFound { request, row, now } => match reply {
            Reply::Flag(true) => {
                let id = row.id;
                (
                    PutFile::UnpinningFound { request },
                    Step::Guard(GuardRequest::ReleaseOpen(id)),
                )
            },
            Reply::Flag(false) => {
                let id = row.id;
                if row.expired_at.is_some() {
                    (
                        PutFile::Expiring { request, row },
                        Step::Query(Statement::ExpireFile { id, now }),
                    )
                } else {
                    (
                        PutFile::Incrementing { request, row, is_temporary: false },
                        Step::Query(Statement::IncrementFileCount { id }),
                    )
                }
            },
            _ => clean(false, Some(row.id), guard_for(&request), Err(failure(&reply, false))),
        },
        PutFile::UnpinningFound { request } => create(request),
        PutFile::Expiring { request, row } => match reply {
            Reply::Affected(_) => {
                let id = row.id;
                (
                    PutFile::Incrementing { request, row, is_temporary: true },
                    Step::Query(Statement::IncrementFileCount { id }),
                )
            },
            _ => clean(false, Some(row.id), guard_for(&request), Err(failure(&reply, true))),
        },
        PutFile::Incrementing { request, row, is_temporary } => match reply {
            Reply::Affected(_) => clean(
                false,
                None,
                guard_for(&request),
                Ok(DatalithFile::new(row, is_temporary, false)),
            ),
            _ => clean(false, Some(row.id), guard_for(&request), Err(failure(&reply, true))),
        },
        _ => (PutFile::Finished, Step::Finish(Err(DatalithWriteError::IOError(IoErrorKind::Other)))),
    }
}

/// Resumes a put that measures the payload and detects its type.
fn resume_new(state: PutFile, reply: Reply) -> (r: PutNext)
    requires
        state is ReadingClock || state is Measuring || state is Resolving || state is Sniffing,
    ensures
        put_turn_is(r, state@.advance(reply@)),
{
    match state {
        PutFile::ReadingClock { request } => match reply {
            Reply::Time(now) => measure(request, now),
            _ => clean(false, None, guard_for(&request), Err(failure(&reply, false))),
        },
        PutFile::Measuring { request, now } => match reply {
            Reply::Size(file_size) => {
                let mut request = request;
                request.file_size = file_size;
                detect(request, now)
            },
            _ => clean(false, None, guard_for(&request), Err(failure(&reply, false))),
        },
        PutFile::Resolving { request, now } => match reply {
            Reply::Text(Some(path)) => {
                let canonical = path.clone();
                (
                    PutFile::Sniffing { request, now, canonical: Some(canonical) },
                    Step::File(FileOperation::Sniff(Payload::Path(path))),
                )
            },
            _ => insert(request, now, None),
        },
        PutFile::Sniffing { request, now, canonical } => match reply {
            Reply::Text(sniffed) => {
                let detected = detect_type(&request.payload, &canonical, sniffed);
                insert(request, now, detected)
            },
            _ => {
                let detected = detect_type(&request.payload, &canonical, None);
                insert(request, now, detected)
            },
        },
        _ => (PutFile::Finished, Step::Finish(Err(DatalithWriteError::IOError(IoErrorKind::Other)))),
    }
}

/// Resumes a put that stores a new file, or gives back what it holds.
fn resume_stored(state: PutFile, reply: Reply) -> (r: PutNext)
    requires
        state is Beginning || state is Inserting || state is Preparing || state is Pinning || state is Storing || state is Committing || state is Cleaning || state is Finished,
    ensures
        put_turn_is(r, state@.advance(reply@)),
{
    match state {
        PutFile::Beginning { row, payload, guard } => match reply {
            Reply::Done => {
                let copy = FileRow {
                    id: row.id,
                    hash: row.hash,
                    created_at: row.created_at,
                    file_size: row.file_size,
                    file_type: row.file_type.duplicate(),
                    file_name: row.file_name.clone(),
                    expired_at: row.expired_at,
                    count: row.count,
                };
                (
                    PutFile::Inserting { row, payload, guard },
                    Step::Query(Statement::InsertFile(copy)),
                )
            },
            _ => clean(false, None, guard, Err(failure(&reply, true))),
        },
        PutFile::Inserting { row, payload, guard } => match reply {
            Reply::Affected(_) => (
                PutFile::Preparing { row, payload, guard },
                Step::File(FileOperation::EnsureDirectory(Directory::Files)),
            ),
            _ => clean(true, None, guard, Err(failure(&reply, true))),
        },
        PutFile::Preparing { row, payload, guard } => match reply {
            Reply::Done => {
                let id = row.id;
                (
                    PutFile::Pinning { row, payload, guard },
                    Step::Guard(GuardRequest::AcquireOpen(id)),
                )
            },
            _ => clean(true, None, guard, Err(failure(&reply, false))),
        },
        PutFile::Pinning { row, payload, guard } => match reply {
            Reply::Flag(true) => {
                let id = row.id;
                (
                    PutFile::Storing { row, guard },
                    Step::File(FileOperation::StoreBlob { id, payload }),
                )
            },
            _ => clean(true, None, guard, Err(failure(&reply, false))),
        },
        PutFile::Storing { row, guard } => match reply {
            Reply::Done => (PutFile::Committing { row, guard }, Step::Query(Statement::Commit)),
            _ => clean(true, Some(row.id), guard, Err(failure(&reply, false))),
        },
        PutFile::Committing { row, guard } => match reply {
            Reply::Done => {
                let is_temporary = row.expired_at.is_some();
                clean(false, None, guard, Ok(DatalithFile::new(row, is_temporary, true)))
            },
            _ => clean(false, Some(row.id), guard, Err(failure(&reply, true))),
        },
        PutFile::Cleaning { rollback, unpin, release, result } => clean(
            rollback,
            unpin,
            release,
            result,
        ),
        PutFile::Finished => (
            PutFile::Finished,
            Step::Finish(Err(DatalithWriteError::IOError(IoErrorKind::Other))),
        ),
        _ => (PutFile::Finished, Step::Finish(Err(DatalithWriteError::IOError(IoErrorKind::Other)))),
    }
}

impl Operation for PutFile {
    type Output = Result<DatalithFile, DatalithWriteError>;

    type OutputView = Result<DatalithFileView, DatalithWriteErrorView>;

    open spec fn output_view(output: Self::Output) -> Self::OutputView {
        put_result_view(output)
    }

    open spec fn advance(state: PutFileView, reply: ReplyView) -> PutTurn {
        state.advance(reply)
    }

    fn resume(self, reply: Reply) -> (r: PutNext) {
        let ghost state = self@;
        let ghost told = reply@;
        let r = match self {
            PutFile::AcquiringPut { .. }
            | PutFile::PausingForPut { .. }
            | PutFile::ReadingLookupClock { .. }
            | PutFile::LookingUp { .. }
            | PutFile::PinningFound { .. }
            | PutFile::CheckingFound { .. }
            | PutFile::UnpinningFound { .. }
            | PutFile::Expiring { .. }
            | PutFile::Incrementing { .. } => resume_found(self, reply),
            PutFile::ReadingClock { .. }
            | PutFile::Measuring { .. }
            | PutFile::Resolving { .. }
            | PutFile::Sniffing { .. } => resume_new(self, reply),
            PutFile::Beginning { .. }
            | PutFile::Inserting { .. }
            | PutFile::Preparing { .. }
            | PutFile::Pinning { .. }
            | PutFile::Storing { .. }
            | PutFile::Committing { .. }
            | PutFile::Cleaning { .. }
            | PutFile::Finished => resume_stored(self, reply),
        };
        proof {
            assert(PutFile::advance(state, told) == state.advance(told));
            assert(r.1 matches Step::Finish(o) ==> PutFile::output_view(o) == put_result_view(o));
        }
        r
    }
}

} // verus!
