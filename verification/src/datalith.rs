//! The store itself: its settings, how it is opened and how it is removed.

use vstd::prelude::*;
use crate::datalith_errors::DatalithCreateError;
use crate::datalith_errors::IoErrorKind;
use crate::datalith_errors::SqlErrorKind;
use crate::operation::Operation;
use crate::step::Directory;
use crate::step::EntryKind;
use crate::step::FileOperation;
use crate::step::FileOperationView;
use crate::step::Reply;
use crate::step::ReplyView;
use crate::step::Statement;
use crate::step::StatementView;
use crate::step::Step;
use crate::step::StepView;

verus! {

/// The name of the database file in the environment.
pub const PATH_DB_FILE: &'static str = "datalith.sqlite";

/// The name of the directory of staged payloads in the environment.
pub const PATH_TEMPORARY_FILE_DIRECTORY: &'static str = "datalith.temp";

/// The name of the directory of blobs in the environment.
pub const PATH_FILE_DIRECTORY: &'static str = "datalith.files";

/// The version of the schema that this store writes.
pub const DATABASE_VERSION: u32 = 1;

/// The size of the file read buffer of a new store: 64 KiB.
pub const FILE_READ_BUFFER_SIZE: usize = 65536;

/// The smallest size that the file read buffer can be set to: 512 KiB.
pub const MIN_FILE_READ_BUFFER_SIZE: usize = 524288;

/// The largest size that the file read buffer can be set to: 64 MiB.
pub const MAX_FILE_READ_BUFFER_SIZE: usize = 67108864;

/// The lifespan of the temporary files of a new store, in milliseconds: one
/// minute.
pub const TEMPORARY_FILE_LIFESPAN: u64 = 60000;

/// The shortest lifespan of temporary files, in milliseconds.
pub const MIN_TEMPORARY_FILE_LIFESPAN: u64 = 100;

/// The longest lifespan of temporary files, in milliseconds: 10000 hours.
pub const MAX_TEMPORARY_FILE_LIFESPAN: u64 = 36000000000;

/// The largest number of pixels of an image that a new store takes.
pub const MAX_IMAGE_RESOLUTION: u32 = 50000000;

/// The largest multiplier at which a new store writes thumbnails.
pub const MAX_IMAGE_RESOLUTION_MULTIPLIER: u8 = 3;

/// The number of connections that the store opens at most for each
/// processor.
pub const CONNECTIONS_PER_CPU: u32 = 10;

/// The time that `chrono` reads from a text in the format of RFC 3339, in
/// milliseconds since the Unix epoch.
pub uninterp spec fn rfc3339_millis(text: Seq<char>) -> Option<i64>;

/// Reads a time in the format of RFC 3339.
///
/// Trusted: wraps `chrono::DateTime::parse_from_rfc3339` followed by
/// `timestamp_millis`. The result is a function of the text alone.
#[verifier::external_body]
pub(crate) fn parse_rfc3339(text: &str) -> (r: Option<i64>)
    ensures
        r == rfc3339_millis(text@),
{
    chrono::DateTime::parse_from_rfc3339(text).ok().map(|t| t.timestamp_millis())
}

/// The version that a text spells.
pub open spec fn version_of_text(text: Seq<char>) -> Option<u32> {
    match crate::text::unsigned_of_text(text, 0xffff_ffff) {
        Some(version) => Some(version as u32),
        None => None,
    }
}

/// Reads a version from its decimal digits.
pub fn parse_u32(text: &str) -> (r: Option<u32>)
    ensures
        r == version_of_text(text@),
{
    match crate::text::parse_unsigned(text, 0xffff_ffff) {
        Some(version) => Some(version as u32),
        None => None,
    }
}

/// The number of processors at hand.
///
/// Trusted: wraps `num_cpus::get`, which returns the number of logical
/// cores available to the process, and at least one.
#[verifier::external_body]
pub(crate) fn available_cpus() -> (n: usize)
    ensures
        n >= 1,
{
    num_cpus::get()
}

/// The largest number of connections to the database for a number of
/// processors: ten for each, as far as 32 bits hold the number.
pub open spec fn pool_size_spec(cpus: usize) -> u32 {
    if cpus * CONNECTIONS_PER_CPU > u32::MAX {
        u32::MAX
    } else {
        (cpus * CONNECTIONS_PER_CPU) as u32
    }
}

/// Works out the largest number of connections to the database.
pub fn pool_size(cpus: usize) -> (r: u32)
    ensures
        r == pool_size_spec(cpus),
{
    let product: u128 = (cpus as u128) * (CONNECTIONS_PER_CPU as u128);
    if product > u32::MAX as u128 {
        u32::MAX
    } else {
        product as u32
    }
}

/// Whether the store can bring a database to the version `version` from the
/// version before it.
pub open spec fn can_migrate_to(version: u32) -> bool {
    version == 2
}

/// Whether the store can bring a database from one version up to another,
/// version by version.
pub open spec fn can_migrate(from: u32, to: u32) -> bool {
    forall|version: u32| from < version <= to ==> can_migrate_to(version)
}

/// What opening a database of the version `current_db_version` comes to for
/// a store that writes the version `app_db_version`: a newer database is
/// refused, and so is an older one that cannot be brought up to date.
pub open spec fn version_check(app_db_version: u32, current_db_version: u32) -> Result<
    (),
    DatalithCreateError,
> {
    if app_db_version < current_db_version {
        Err(DatalithCreateError::DatabaseTooNewError { app_db_version, current_db_version })
    } else if can_migrate(current_db_version, app_db_version) {
        Ok(())
    } else {
        Err(DatalithCreateError::DatabaseTooOldError { app_db_version, current_db_version })
    }
}

/// Checks the version of a database against that of the store, and tells
/// whether the database can be brought up to date.
pub fn initial_with_migration(app_db_version: u32, current_db_version: u32) -> (r: Result<
    (),
    DatalithCreateError,
>)
    ensures
        r == version_check(app_db_version, current_db_version),
{
    if app_db_version < current_db_version {
        return Err(
            DatalithCreateError::DatabaseTooNewError { app_db_version, current_db_version },
        );
    }
    let mut version = current_db_version;
    while version < app_db_version
        invariant
            current_db_version <= version <= app_db_version,
            can_migrate(current_db_version, version),
        decreases app_db_version - version,
    {
        version = version + 1;
        if version != 2 {
            assert(!can_migrate_to(version));
            return Err(
                DatalithCreateError::DatabaseTooOldError { app_db_version, current_db_version },
            );
        }
    }
    Ok(())
}

/// The settings of a store.
#[derive(Debug)]
pub struct Datalith {
    environment: String,
    version: u32,
    create_time: i64,
    file_read_buffer_size: usize,
    temporary_file_lifespan: u64,
    max_image_resolution: u32,
    max_image_resolution_multiplier: u8,
}

/// The mathematical value of the settings of a store.
pub struct DatalithView {
    pub environment: Seq<char>,
    pub version: u32,
    pub create_time: i64,
    pub file_read_buffer_size: usize,
    pub temporary_file_lifespan: u64,
    pub max_image_resolution: u32,
    pub max_image_resolution_multiplier: u8,
}

impl View for Datalith {
    type V = DatalithView;

    closed spec fn view(&self) -> DatalithView {
        DatalithView {
            environment: self.environment@,
            version: self.version,
            create_time: self.create_time,
            file_read_buffer_size: self.file_read_buffer_size,
            temporary_file_lifespan: self.temporary_file_lifespan,
            max_image_resolution: self.max_image_resolution,
            max_image_resolution_multiplier: self.max_image_resolution_multiplier,
        }
    }
}

/// What opening a store found: the version of the database and the time at
/// which it was created.
#[derive(Clone, Copy, Debug, PartialEq, Eq, Structural)]
pub struct Opened {
    pub version: u32,
    pub create_time: i64,
}

/// A value brought into a range.
pub open spec fn clamped(value: int, low: int, high: int) -> int {
    if value < low {
        low
    } else if value > high {
        high
    } else {
        value
    }
}

impl Datalith {
    /// The settings of a store that has just been opened.
    pub fn new(environment: String, opened: Opened) -> (r: Datalith)
        ensures
            r@ == (DatalithView {
                environment: environment@,
                version: opened.version,
                create_time: opened.create_time,
                file_read_buffer_size: FILE_READ_BUFFER_SIZE,
                temporary_file_lifespan: TEMPORARY_FILE_LIFESPAN,
                max_image_resolution: MAX_IMAGE_RESOLUTION,
                max_image_resolution_multiplier: MAX_IMAGE_RESOLUTION_MULTIPLIER,
            }),
    {
        Datalith {
            environment,
            version: opened.version,
            create_time: opened.create_time,
            file_read_buffer_size: FILE_READ_BUFFER_SIZE,
            temporary_file_lifespan: TEMPORARY_FILE_LIFESPAN,
            max_image_resolution: MAX_IMAGE_RESOLUTION,
            max_image_resolution_multiplier: MAX_IMAGE_RESOLUTION_MULTIPLIER,
        }
    }

    /// The root path of the store.
    pub fn get_environment(&self) -> (r: &String)
        ensures
            r@ == self@.environment,
    {
        &self.environment
    }

    /// The size of the file read buffer in bytes.
    pub fn get_file_read_buffer_size(&self) -> (r: usize)
        ensures
            r == self@.file_read_buffer_size,
    {
        self.file_read_buffer_size
    }

    /// Sets the size of the file read buffer, brought into the range from
    /// 512 KiB to 64 MiB.
    pub fn set_file_read_buffer_size(&mut self, size: usize)
        ensures
            final(self)@ == (DatalithView {
                file_read_buffer_size: clamped(
                    size as int,
                    MIN_FILE_READ_BUFFER_SIZE as int,
                    MAX_FILE_READ_BUFFER_SIZE as int,
                ) as usize,
                ..old(self)@
            }),
    {
        self.file_read_buffer_size = if size < MIN_FILE_READ_BUFFER_SIZE {
            MIN_FILE_READ_BUFFER_SIZE
        } else if size > MAX_FILE_READ_BUFFER_SIZE {
            MAX_FILE_READ_BUFFER_SIZE
        } else {
            size
        };
    }

    /// The lifespan of temporary files in milliseconds.
    pub fn get_temporary_file_lifespan(&self) -> (r: u64)
        ensures
            r == self@.temporary_file_lifespan,
    {
        self.temporary_file_lifespan
    }

    /// Sets the lifespan of temporary files, in milliseconds, brought into
    /// the range from 100 milliseconds to 10000 hours.
    pub fn set_temporary_file_lifespan(&mut self, temporary_file_lifespan: u64)
        ensures
            final(self)@ == (DatalithView {
                temporary_file_lifespan: clamped(
                    temporary_file_lifespan as int,
                    MIN_TEMPORARY_FILE_LIFESPAN as int,
                    MAX_TEMPORARY_FILE_LIFESPAN as int,
                ) as u64,
                ..old(self)@
            }),
    {
        self.temporary_file_lifespan = if temporary_file_lifespan < MIN_TEMPORARY_FILE_LIFESPAN {
            MIN_TEMPORARY_FILE_LIFESPAN
        } else if temporary_file_lifespan > MAX_TEMPORARY_FILE_LIFESPAN {
            MAX_TEMPORARY_FILE_LIFESPAN
        } else {
            temporary_file_lifespan
        };
    }

    /// The largest number of pixels of an image that the store takes.
    pub fn get_max_image_resolution(&self) -> (r: u32)
        ensures
            r == self@.max_image_resolution,
    {
        self.max_image_resolution
    }

    /// Sets the largest number of pixels of an image that the store takes;
    /// zero is taken as one.
    pub fn set_max_image_resolution(&mut self, resolution: u32)
        ensures
            final(self)@ == (DatalithView {
                max_image_resolution: if resolution == 0 {
                    1
                } else {
                    resolution
                },
                ..old(self)@
            }),
    {
        self.max_image_resolution = if resolution == 0 {
            1
        } else {
            resolution
        };
    }

    /// The largest multiplier at which the store writes thumbnails.
    pub fn get_max_image_resolution_multiplier(&self) -> (r: u8)
        ensures
            r == self@.max_image_resolution_multiplier,
    {
        self.max_image_resolution_multiplier
    }

    /// Sets the largest multiplier at which the store writes thumbnails;
    /// zero is taken as one.
    pub fn set_max_image_resolution_multiplier(&mut self, resolution_multiplier: u8)
        ensures
            final(self)@ == (DatalithView {
                max_image_resolution_multiplier: if resolution_multiplier == 0 {
                    1
                } else {
                    resolution_multiplier
                },
                ..old(self)@
            }),
    {
        self.max_image_resolution_multiplier = if resolution_multiplier == 0 {
            1
        } else {
            resolution_multiplier
        };
    }
}

/// Opening a store. The environment is created if it is missing, and so is
/// the database; the exclusive lock on the database file is taken; the table
/// of information is created and filled, or read where it exists; the version
/// is checked; and the directory of staged payloads is emptied.
#[derive(Clone, Copy, Debug)]
pub enum OpenStore {
    /// Asked what lies at the path of the environment.
    ProbingEnvironment { max_connections: u32 },
    /// Asked to create the environment.
    CreatingEnvironment { max_connections: u32 },
    /// Asked what lies at the path of the database file.
    ProbingDatabase { max_connections: u32 },
    /// Asked to connect.
    Connecting,
    /// Asked for the lock.
    Locking,
    /// Asked to open a transaction.
    Beginning,
    /// Asked to create the table of information.
    CreatingTable,
    /// Asked for the time of creation.
    ReadingClock,
    /// Asked to insert the version and the time of creation.
    InsertingInformation { create_time: i64 },
    /// Asked to create the other tables.
    CreatingSchema { create_time: i64 },
    /// Asked to commit the new tables.
    CommittingNew { create_time: i64 },
    /// Asked to commit, the table of information being there.
    CommittingOld,
    /// Asked for the version.
    SelectingVersion,
    /// Asked for the time of creation.
    SelectingCreateTime { version: u32 },
    /// Asked to make sure of the directory of staged payloads.
    PreparingTemporary { opened: Opened, emptied: bool },
    /// Asked whether the directory of staged payloads is empty.
    CheckingTemporary { opened: Opened },
    /// Asked to remove the directory of staged payloads.
    ClearingTemporary { opened: Opened },
    /// Asked to abandon the transaction after a failure.
    Failing { error: DatalithCreateError },
    /// Ended.
    Finished,
}

impl View for OpenStore {
    type V = OpenStore;

    open spec fn view(&self) -> OpenStore {
        *self
    }
}

/// A state of opening a store and the request it waits on.
pub type OpenTurn = (OpenStore, StepView<Result<Opened, DatalithCreateError>>);

impl OpenStore {
    /// The first state and request of opening a store on a machine with a
    /// number of processors.
    pub open spec fn begin_spec(cpus: usize) -> OpenTurn {
        (
            OpenStore::ProbingEnvironment { max_connections: pool_size_spec(cpus) },
            StepView::File(FileOperationView::ProbeEnvironment),
        )
    }

    /// The end of opening with an error.
    pub open spec fn end(error: DatalithCreateError) -> OpenTurn {
        (OpenStore::Finished, StepView::Finish(Err(error)))
    }

    /// The error of a reply that tells a failure or does not answer the
    /// request; `statement` tells whether the request was a statement.
    pub open spec fn failure(reply: ReplyView, statement: bool) -> DatalithCreateError {
        match reply {
            ReplyView::IoFailed(kind) => DatalithCreateError::IOError(kind),
            ReplyView::SqlFailed(kind) => DatalithCreateError::SQLError(kind),
            _ => if statement {
                DatalithCreateError::SQLError(SqlErrorKind::Other)
            } else {
                DatalithCreateError::IOError(IoErrorKind::Other)
            },
        }
    }

    /// The state in which the transaction is abandoned before the opening
    /// ends with an error.
    pub open spec fn abandon(error: DatalithCreateError) -> OpenTurn {
        (OpenStore::Failing { error }, StepView::Query(StatementView::Rollback))
    }

    /// The request to probe the database file.
    pub open spec fn probe_database(max_connections: u32) -> OpenTurn {
        (
            OpenStore::ProbingDatabase { max_connections },
            StepView::File(FileOperationView::ProbeDatabase),
        )
    }

    /// The request to connect.
    pub open spec fn connect(create_if_missing: bool, max_connections: u32) -> OpenTurn {
        (
            OpenStore::Connecting,
            StepView::File(FileOperationView::Connect { create_if_missing, max_connections }),
        )
    }

    /// After the version and the time of creation are known: the version is
    /// checked, and the directory of staged payloads is seen to.
    pub open spec fn check(opened: Opened) -> OpenTurn {
        match version_check(DATABASE_VERSION, opened.version) {
            Ok(()) => (
                OpenStore::PreparingTemporary { opened, emptied: false },
                StepView::File(FileOperationView::EnsureDirectory(Directory::Temporary)),
            ),
            Err(error) => OpenStore::end(error),
        }
    }

    /// The state and the request that follow a state and the reply to its
    /// request.
    pub open spec fn advance_spec(self, reply: ReplyView) -> OpenTurn {
        let exists = DatalithCreateError::IOError(IoErrorKind::AlreadyExists);
        match self {
            OpenStore::ProbingEnvironment { max_connections } => match reply {
                ReplyView::Entry(EntryKind::Directory) => OpenStore::probe_database(
                    max_connections,
                ),
                ReplyView::Entry(_) => OpenStore::end(exists),
                ReplyView::IoFailed(IoErrorKind::NotFound) => (
                    OpenStore::CreatingEnvironment { max_connections },
                    StepView::File(FileOperationView::CreateEnvironment),
                ),
                _ => OpenStore::end(OpenStore::failure(reply, false)),
            },
            OpenStore::CreatingEnvironment { max_connections } => match reply {
                ReplyView::Done => OpenStore::probe_database(max_connections),
                _ => OpenStore::end(OpenStore::failure(reply, false)),
            },
            OpenStore::ProbingDatabase { max_connections } => match reply {
                ReplyView::Entry(EntryKind::File) => OpenStore::connect(false, max_connections),
                ReplyView::Entry(_) => OpenStore::end(exists),
                ReplyView::IoFailed(IoErrorKind::NotFound) => OpenStore::connect(
                    true,
                    max_connections,
                ),
                _ => OpenStore::end(OpenStore::failure(reply, false)),
            },
            OpenStore::Connecting => match reply {
                ReplyView::Done => (OpenStore::Locking, StepView::File(FileOperationView::Lock)),
                _ => OpenStore::end(OpenStore::failure(reply, true)),
            },
            OpenStore::Locking => match reply {
                ReplyView::Done => (OpenStore::Beginning, StepView::Query(StatementView::Begin)),
                ReplyView::IoFailed(IoErrorKind::WouldBlock) => OpenStore::end(
                    DatalithCreateError::AlreadyRun,
                ),
                _ => OpenStore::end(OpenStore::failure(reply, false)),
            },
            OpenStore::Beginning => match reply {
                ReplyView::Done => (
                    OpenStore::CreatingTable,
                    StepView::Query(StatementView::CreateInformationTable),
                ),
                _ => OpenStore::end(OpenStore::failure(reply, true)),
            },
            OpenStore::CreatingTable => match reply {
                ReplyView::Done | ReplyView::Affected(_) => (
                    OpenStore::ReadingClock,
                    StepView::Clock,
                ),
                ReplyView::SqlFailed(SqlErrorKind::TableAlreadyExists) => (
                    OpenStore::CommittingOld,
                    StepView::Query(StatementView::Commit),
                ),
                _ => OpenStore::abandon(OpenStore::failure(reply, true)),
            },
            OpenStore::ReadingClock => match reply {
                ReplyView::Time(create_time) => (
                    OpenStore::InsertingInformation { create_time },
                    StepView::Query(
                        StatementView::InsertInformation { version: DATABASE_VERSION, create_time },
                    ),
                ),
                _ => OpenStore::abandon(OpenStore::failure(reply, false)),
            },
            OpenStore::InsertingInformation { create_time } => match reply {
                ReplyView::Done | ReplyView::Affected(_) => (
                    OpenStore::CreatingSchema { create_time },
                    StepView::Query(StatementView::CreateSchema),
                ),
                _ => OpenStore::abandon(OpenStore::failure(reply, true)),
            },
            OpenStore::CreatingSchema { create_time } => match reply {
                ReplyView::Done | ReplyView::Affected(_) => (
                    OpenStore::CommittingNew { create_time },
                    StepView::Query(StatementView::Commit),
                ),
                _ => OpenStore::abandon(OpenStore::failure(reply, true)),
            },
            OpenStore::CommittingNew { create_time } => match reply {
                ReplyView::Done => OpenStore::check(
                    Opened { version: DATABASE_VERSION, create_time },
                ),
                _ => OpenStore::end(OpenStore::failure(reply, true)),
            },
            OpenStore::CommittingOld => match reply {
                ReplyView::Done => (
                    OpenStore::SelectingVersion,
                    StepView::Query(StatementView::SelectVersion),
                ),
                _ => OpenStore::end(OpenStore::failure(reply, true)),
            },
            OpenStore::SelectingVersion => match reply {
                ReplyView::Text(Some(text)) => match version_of_text(text) {
                    Some(version) => (
                        OpenStore::SelectingCreateTime { version },
                        StepView::Query(StatementView::SelectCreateTime),
                    ),
                    None => OpenStore::end(DatalithCreateError::SQLError(SqlErrorKind::Other)),
                },
                _ => OpenStore::end(OpenStore::failure(reply, true)),
            },
            OpenStore::SelectingCreateTime { version } => match reply {
                ReplyView::Text(Some(text)) => match rfc3339_millis(text) {
                    Some(create_time) => OpenStore::check(Opened { version, create_time }),
                    None => OpenStore::end(DatalithCreateError::SQLError(SqlErrorKind::Other)),
                },
                _ => OpenStore::end(OpenStore::failure(reply, true)),
            },
            OpenStore::PreparingTemporary { opened, emptied } => match reply {
                ReplyView::Done => if emptied {
                    (OpenStore::Finished, StepView::Finish(Ok(opened)))
                } else {
                    (
                        OpenStore::CheckingTemporary { opened },
                        StepView::File(FileOperationView::IsEmpty(Directory::Temporary)),
                    )
                },
                _ => OpenStore::end(OpenStore::failure(reply, false)),
            },
            OpenStore::CheckingTemporary { opened } => match reply {
                ReplyView::Flag(true) => (OpenStore::Finished, StepView::Finish(Ok(opened))),
                ReplyView::Flag(false) => (
                    OpenStore::ClearingTemporary { opened },
                    StepView::File(FileOperationView::RemoveDirectory(Directory::Temporary)),
                ),
                _ => OpenStore::end(OpenStore::failure(reply, false)),
            },
            OpenStore::ClearingTemporary { opened } => match reply {
                ReplyView::Done => (
                    OpenStore::PreparingTemporary { opened, emptied: true },
                    StepView::File(FileOperationView::EnsureDirectory(Directory::Temporary)),
                ),
                _ => OpenStore::end(OpenStore::failure(reply, false)),
            },
            OpenStore::Failing { error } => OpenStore::end(error),
            OpenStore::Finished => OpenStore::end(
                DatalithCreateError::IOError(IoErrorKind::Other),
            ),
        }
    }

    /// Begins to open a store.
    pub fn begin() -> (r: (OpenStore, Step<Result<Opened, DatalithCreateError>>))
        ensures
            exists|cpus: usize|
                cpus >= 1 && r.0 == OpenStore::begin_spec(cpus).0 && r.1.view_with(|o| o)
                    == OpenStore::begin_spec(cpus).1,
    {
        OpenStore::begin_with(available_cpus())
    }

    /// Begins to open a store on a machine with a number of processors.
    pub fn begin_with(cpus: usize) -> (r: (OpenStore, Step<Result<Opened, DatalithCreateError>>))
        ensures
            r.0 == OpenStore::begin_spec(cpus).0,
            r.1.view_with(|o| o) == OpenStore::begin_spec(cpus).1,
    {
        (
            OpenStore::ProbingEnvironment { max_connections: pool_size(cpus) },
            Step::File(FileOperation::ProbeEnvironment),
        )
    }
}

/// A state of opening a store and the request it waits on.
pub type OpenNext = (OpenStore, Step<Result<Opened, DatalithCreateError>>);

/// Whether a state and a request have the given mathematical values.
pub open spec fn open_turn_is(next: OpenNext, turn: OpenTurn) -> bool {
    &&& next.0 == turn.0
    &&& next.1.view_with(|o| o) == turn.1
}

fn end(error: DatalithCreateError) -> (r: OpenNext)
    ensures
        open_turn_is(r, OpenStore::end(error)),
{
    (OpenStore::Finished, Step::Finish(Err(error)))
}

fn open_failure(reply: &Reply, statement: bool) -> (e: DatalithCreateError)
    ensures
        e == OpenStore::failure(reply@, statement),
{
    match reply {
        Reply::IoFailed(kind) => DatalithCreateError::IOError(*kind),
        Reply::SqlFailed(kind) => DatalithCreateError::SQLError(*kind),
        _ => if statement {
            DatalithCreateError::SQLError(SqlErrorKind::Other)
        } else {
            DatalithCreateError::IOError(IoErrorKind::Other)
        },
    }
}

fn abandon(error: DatalithCreateError) -> (r: OpenNext)
    ensures
        open_turn_is(r, OpenStore::abandon(error)),
{
    (OpenStore::Failing { error }, Step::Query(Statement::Rollback))
}

fn probe_database(max_connections: u32) -> (r: OpenNext)
    ensures
        open_turn_is(r, OpenStore::probe_database(max_connections)),
{
    (OpenStore::ProbingDatabase { max_connections }, Step::File(FileOperation::ProbeDatabase))
}

fn connect(create_if_missing: bool, max_connections: u32) -> (r: OpenNext)
    ensures
        open_turn_is(r, OpenStore::connect(create_if_missing, max_connections)),
{
    (
        OpenStore::Connecting,
        Step::File(FileOperation::Connect { create_if_missing, max_connections }),
    )
}

fn check(opened: Opened) -> (r: OpenNext)
    ensures
        open_turn_is(r, OpenStore::check(opened)),
{
    match initial_with_migration(DATABASE_VERSION, opened.version) {
        Ok(()) => (
            OpenStore::PreparingTemporary { opened, emptied: false },
            Step::File(FileOperation::EnsureDirectory(Directory::Temporary)),
        ),
        Err(error) => end(error),
    }
}

impl Operation for OpenStore {
    type Output = Result<Opened, DatalithCreateError>;

    type OutputView = Result<Opened, DatalithCreateError>;

    open spec fn output_view(output: Self::Output) -> Self::OutputView {
        output
    }

    open spec fn advance(state: OpenStore, reply: ReplyView) -> OpenTurn {
        state.advance_spec(reply)
    }

    fn resume(self, reply: Reply) -> (r: OpenNext) {
        let exists = DatalithCreateError::IOError(IoErrorKind::AlreadyExists);
        match self {
            OpenStore::ProbingEnvironment { max_connections } => match reply {
                Reply::Entry(EntryKind::Directory) => probe_database(max_connections),
                Reply::Entry(_) => end(exists),
                Reply::IoFailed(IoErrorKind::NotFound) => (
                    OpenStore::CreatingEnvironment { max_connections },
                    Step::File(FileOperation::CreateEnvironment),
                ),
                _ => end(open_failure(&reply, false)),
            },
            OpenStore::CreatingEnvironment { max_connections } => match reply {
                Reply::Done => probe_database(max_connections),
                _ => end(open_failure(&reply, false)),
            },
            OpenStore::ProbingDatabase { max_connections } => match reply {
                Reply::Entry(EntryKind::File) => connect(false, max_connections),
                Reply::Entry(_) => end(exists),
                Reply::IoFailed(IoErrorKind::NotFound) => connect(true, max_connections),
                _ => end(open_failure(&reply, false)),
            },
            OpenStore::Connecting => match reply {
                Reply::Done => (OpenStore::Locking, Step::File(FileOperation::Lock)),
                _ => end(open_failure(&reply, true)),
            },
            OpenStore::Locking => match reply {
                Reply::Done => (OpenStore::Beginning, Step::Query(Statement::Begin)),
                Reply::IoFailed(IoErrorKind::WouldBlock) => end(DatalithCreateError::AlreadyRun),
                _ => end(open_failure(&reply, false)),
            },
            OpenStore::Beginning => match reply {
                Reply::Done => (
                    OpenStore::CreatingTable,
                    Step::Query(Statement::CreateInformationTable),
                ),
                _ => end(open_failure(&reply, true)),
            },
            OpenStore::CreatingTable => match reply {
                Reply::Done | Reply::Affected(_) => (OpenStore::ReadingClock, Step::Clock),
                Reply::SqlFailed(SqlErrorKind::TableAlreadyExists) => (
                    OpenStore::CommittingOld,
                    Step::Query(Statement::Commit),
                ),
                _ => abandon(open_failure(&reply, true)),
            },
            OpenStore::ReadingClock => match reply {
                Reply::Time(create_time) => (
                    OpenStore::InsertingInformation { create_time },
                    Step::Query(
                        Statement::InsertInformation { version: DATABASE_VERSION, create_time },
                    ),
                ),
                _ => abandon(open_failure(&reply, false)),
            },
            OpenStore::InsertingInformation { create_time } => match reply {
                Reply::Done | Reply::Affected(_) => (
                    OpenStore::CreatingSchema { create_time },
                    Step::Query(Statement::CreateSchema),
                ),
                _ => abandon(open_failure(&reply, true)),
            },
            OpenStore::CreatingSchema { create_time } => match reply {
                Reply::Done | Reply::Affected(_) => (
                    OpenStore::CommittingNew { create_time },
                    Step::Query(Statement::Commit),
                ),
                _ => abandon(open_failure(&reply, true)),
            },
            OpenStore::CommittingNew { create_time } => match reply {
                Reply::Done => check(Opened { version: DATABASE_VERSION, create_time }),
                _ => end(open_failure(&reply, true)),
            },
            OpenStore::CommittingOld => match reply {
                Reply::Done => (
                    OpenStore::SelectingVersion,
                    Step::Query(Statement::SelectVersion),
                ),
                _ => end(open_failure(&reply, true)),
            },
            OpenStore::SelectingVersion => match reply {
                Reply::Text(Some(text)) => match parse_u32(text.as_str()) {
                    Some(version) => (
                        OpenStore::SelectingCreateTime { version },
                        Step::Query(Statement::SelectCreateTime),
                    ),
                    None => end(DatalithCreateError::SQLError(SqlErrorKind::Other)),
                },
                _ => end(open_failure(&reply, true)),
            },
            OpenStore::SelectingCreateTime { version } => match reply {
                Reply::Text(Some(text)) => match parse_rfc3339(text.as_str()) {
                    Some(create_time) => check(Opened { version, create_time }),
                    None => end(DatalithCreateError::SQLError(SqlErrorKind::Other)),
                },
                _ => end(open_failure(&reply, true)),
            },
            OpenStore::PreparingTemporary { opened, emptied } => match reply {
                Reply::Done => if emptied {
                    (OpenStore::Finished, Step::Finish(Ok(opened)))
                } else {
                    (
                        OpenStore::CheckingTemporary { opened },
                        Step::File(FileOperation::IsEmpty(Directory::Temporary)),
                    )
                },
                _ => end(open_failure(&reply, false)),
            },
            OpenStore::CheckingTemporary { opened } => match reply {
                Reply::Flag(true) => (OpenStore::Finished, Step::Finish(Ok(opened))),
                Reply::Flag(false) => (
                    OpenStore::ClearingTemporary { opened },
                    Step::File(FileOperation::RemoveDirectory(Directory::Temporary)),
                ),
                _ => end(open_failure(&reply, false)),
            },
            OpenStore::ClearingTemporary { opened } => match reply {
                Reply::Done => (
                    OpenStore::PreparingTemporary { opened, emptied: true },
                    Step::File(FileOperation::EnsureDirectory(Directory::Temporary)),
                ),
                _ => end(open_failure(&reply, false)),
            },
            OpenStore::Failing { error } => end(error),
            OpenStore::Finished => end(DatalithCreateError::IOError(IoErrorKind::Other)),
        }
    }
}

/// A second store on an environment is refused: where the lock on the
/// database file is held elsewhere, opening ends with `AlreadyRun`.
pub proof fn law_second_open_is_refused()
    ensures
        OpenStore::Locking.advance_spec(ReplyView::IoFailed(IoErrorKind::WouldBlock))
            == OpenStore::end(DatalithCreateError::AlreadyRun),
{
}

/// A database of a version above that of the store is refused as too new,
/// and a database of a version below it is brought up to date or, where it
/// cannot be, refused as too old.
pub proof fn law_version_boundary(app_db_version: u32, current_db_version: u32)
    ensures
        current_db_version > app_db_version ==> version_check(app_db_version, current_db_version)
            == Err::<(), DatalithCreateError>(
            DatalithCreateError::DatabaseTooNewError { app_db_version, current_db_version },
        ),
        current_db_version == app_db_version ==> version_check(app_db_version, current_db_version)
            is Ok,
        current_db_version < app_db_version ==> (version_check(app_db_version, current_db_version)
            is Ok <==> can_migrate(current_db_version, app_db_version)),
        current_db_version < app_db_version && !can_migrate(current_db_version, app_db_version)
            ==> version_check(app_db_version, current_db_version) == Err::<
            (),
            DatalithCreateError,
        >(DatalithCreateError::DatabaseTooOldError { app_db_version, current_db_version }),
{
}

/// Removing a store: the connections are closed, the database file and the
/// directory of staged payloads are removed, then the directory of blobs
/// where `files` says so, and at last the environment if nothing else is in
/// it. What is gone already counts as removed.
#[derive(Clone, Copy, Debug, PartialEq, Eq, Structural)]
pub enum DropStore {
    /// Asked to close the connections.
    Disconnecting { files: bool },
    /// Asked to remove the database file.
    RemovingDatabase { files: bool },
    /// Asked to remove the directory of staged payloads.
    RemovingTemporary { files: bool },
    /// Asked to remove the directory of blobs.
    RemovingFiles,
    /// Asked whether the environment is empty.
    CheckingEnvironment,
    /// Asked to remove the environment.
    RemovingEnvironment,
    /// Ended.
    Finished,
}

impl Datalith {
    /// Begins to close the store and to remove all that it keeps: its
    /// database, its staged payloads and its blobs.
    pub fn drop_datalith(self) -> (r: (DropStore, Step<Result<(), IoErrorKind>>))
        ensures
            r.0 == DropStore::begin_spec().0,
            r.1.view_with(|o| o) == DropStore::begin_spec().1,
    {
        DropStore::begin()
    }

    /// Begins to close the store and to remove its database and its staged
    /// payloads; the blobs stay.
    pub fn drop_database(self) -> (r: (DropStore, Step<Result<(), IoErrorKind>>))
        ensures
            r.0 == DropStore::begin_database_spec().0,
            r.1.view_with(|o| o) == DropStore::begin_database_spec().1,
    {
        DropStore::begin_database()
    }
}

impl View for DropStore {
    type V = DropStore;

    open spec fn view(&self) -> DropStore {
        *self
    }
}

/// A state of removing a store and the request it waits on.
pub type DropTurn = (DropStore, StepView<Result<(), IoErrorKind>>);

impl DropStore {
    /// The first state and request of removing a store with all that it
    /// keeps.
    pub open spec fn begin_spec() -> DropTurn {
        (DropStore::Disconnecting { files: true }, StepView::File(FileOperationView::Disconnect))
    }

    /// The first state and request of removing the database of a store and
    /// its staged payloads; the blobs stay.
    pub open spec fn begin_database_spec() -> DropTurn {
        (DropStore::Disconnecting { files: false }, StepView::File(FileOperationView::Disconnect))
    }

    /// Whether a reply tells that something was removed or was gone already.
    pub open spec fn removed(reply: ReplyView) -> bool {
        reply is Done || reply == ReplyView::IoFailed(IoErrorKind::NotFound)
    }

    /// The end of the removal with the failure that a reply tells.
    pub open spec fn fail(reply: ReplyView) -> DropTurn {
        (
            DropStore::Finished,
            StepView::Finish(
                Err(
                    match reply {
                        ReplyView::IoFailed(kind) => kind,
                        _ => IoErrorKind::Other,
                    },
                ),
            ),
        )
    }

    /// The state and the request that follow a state and the reply to its
    /// request.
    pub open spec fn advance_spec(self, reply: ReplyView) -> DropTurn {
        let done = (DropStore::Finished, StepView::Finish(Ok(())));
        match self {
            DropStore::Disconnecting { files } => (
                DropStore::RemovingDatabase { files },
                StepView::File(FileOperationView::RemoveDatabase),
            ),
            DropStore::RemovingDatabase { files } => if DropStore::removed(reply) {
                (
                    DropStore::RemovingTemporary { files },
                    StepView::File(FileOperationView::RemoveDirectory(Directory::Temporary)),
                )
            } else {
                DropStore::fail(reply)
            },
            DropStore::RemovingTemporary { files } => if !DropStore::removed(reply) {
                DropStore::fail(reply)
            } else if files {
                (
                    DropStore::RemovingFiles,
                    StepView::File(FileOperationView::RemoveDirectory(Directory::Files)),
                )
            } else {
                (
                    DropStore::CheckingEnvironment,
                    StepView::File(FileOperationView::IsEnvironmentEmpty),
                )
            },
            DropStore::RemovingFiles => if DropStore::removed(reply) {
                (
                    DropStore::CheckingEnvironment,
                    StepView::File(FileOperationView::IsEnvironmentEmpty),
                )
            } else {
                DropStore::fail(reply)
            },
            DropStore::CheckingEnvironment => match reply {
                ReplyView::Flag(true) => (
                    DropStore::RemovingEnvironment,
                    StepView::File(FileOperationView::RemoveEnvironment),
                ),
                ReplyView::Flag(false) => done,
                ReplyView::IoFailed(IoErrorKind::NotFound) => done,
                _ => DropStore::fail(reply),
            },
            DropStore::RemovingEnvironment => if DropStore::removed(reply) {
                done
            } else {
                DropStore::fail(reply)
            },
            DropStore::Finished => (
                DropStore::Finished,
                StepView::Finish(Err(IoErrorKind::Other)),
            ),
        }
    }

    /// Begins to remove a store with all that it keeps.
    pub fn begin() -> (r: (DropStore, Step<Result<(), IoErrorKind>>))
        ensures
            r.0 == DropStore::begin_spec().0,
            r.1.view_with(|o| o) == DropStore::begin_spec().1,
    {
        (DropStore::Disconnecting { files: true }, Step::File(FileOperation::Disconnect))
    }

    /// Begins to remove the database of a store and its staged payloads.
    pub fn begin_database() -> (r: (DropStore, Step<Result<(), IoErrorKind>>))
        ensures
            r.0 == DropStore::begin_database_spec().0,
            r.1.view_with(|o| o) == DropStore::begin_database_spec().1,
    {
        (DropStore::Disconnecting { files: false }, Step::File(FileOperation::Disconnect))
    }
}

fn was_removed(reply: &Reply) -> (r: bool)
    ensures
        r == DropStore::removed(reply@),
{
    match reply {
        Reply::Done => true,
        Reply::IoFailed(IoErrorKind::NotFound) => true,
        _ => false,
    }
}

fn fail_drop(reply: &Reply) -> (r: (DropStore, Step<Result<(), IoErrorKind>>))
    ensures
        r.0 == DropStore::fail(reply@).0,
        r.1.view_with(|o| o) == DropStore::fail(reply@).1,
{
    (
        DropStore::Finished,
        Step::Finish(
            Err(
                match reply {
                    Reply::IoFailed(kind) => *kind,
                    _ => IoErrorKind::Other,
                },
            ),
        ),
    )
}

impl Operation for DropStore {
    type Output = Result<(), IoErrorKind>;

    type OutputView = Result<(), IoErrorKind>;

    open spec fn output_view(output: Self::Output) -> Self::OutputView {
        output
    }

    open spec fn advance(state: DropStore, reply: ReplyView) -> DropTurn {
        state.advance_spec(reply)
    }

    fn resume(self, reply: Reply) -> (r: (DropStore, Step<Self::Output>)) {
        match self {
            DropStore::Disconnecting { files } => (
                DropStore::RemovingDatabase { files },
                Step::File(FileOperation::RemoveDatabase),
            ),
            DropStore::RemovingDatabase { files } => if was_removed(&reply) {
                (
                    DropStore::RemovingTemporary { files },
                    Step::File(FileOperation::RemoveDirectory(Directory::Temporary)),
                )
            } else {
                fail_drop(&reply)
            },
            DropStore::RemovingTemporary { files } => if !was_removed(&reply) {
                fail_drop(&reply)
            } else if files {
                (
                    DropStore::RemovingFiles,
                    Step::File(FileOperation::RemoveDirectory(Directory::Files)),
                )
            } else {
                (DropStore::CheckingEnvironment, Step::File(FileOperation::IsEnvironmentEmpty))
            },
            DropStore::RemovingFiles => if was_removed(&reply) {
                (DropStore::CheckingEnvironment, Step::File(FileOperation::IsEnvironmentEmpty))
            } else {
                fail_drop(&reply)
            },
            DropStore::CheckingEnvironment => match reply {
                Reply::Flag(true) => (
                    DropStore::RemovingEnvironment,
                    Step::File(FileOperation::RemoveEnvironment),
                ),
                Reply::Flag(false) => (DropStore::Finished, Step::Finish(Ok(()))),
                Reply::IoFailed(IoErrorKind::NotFound) => (
                    DropStore::Finished,
                    Step::Finish(Ok(())),
                ),
                _ => fail_drop(&reply),
            },
            DropStore::RemovingEnvironment => if was_removed(&reply) {
                (DropStore::Finished, Step::Finish(Ok(())))
            } else {
                fail_drop(&reply)
            },
            DropStore::Finished => (DropStore::Finished, Step::Finish(Err(IoErrorKind::Other))),
        }
    }
}

} // verus!
