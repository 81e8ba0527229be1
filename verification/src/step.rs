//! The vocabulary between the store's operations and their driver: what an
//! operation asks for next, and what it is told of the outcome.

use vstd::prelude::*;
use crate::datalith_errors::IoErrorKind;
use crate::datalith_errors::SqlErrorKind;
use crate::datalith_file::FileRecord;
use crate::datalith_file::FileRow;
use crate::functions::FileHash;
use crate::guard::GuardRequest;
use crate::guard::GuardRequestView;
use crate::image_types::ImageRecord;
use crate::image_types::ImageRow;
use crate::image_types::ThumbnailLink;
use crate::resources::ResourceRecord;
use crate::resources::ResourceRow;

verus! {

/// The columns by which a listing is ordered. The sign of a number gives
/// the direction, positive for ascending; its magnitude gives the rank of
/// the column among the others, and zero leaves the column out.
#[derive(Clone, Copy, Debug, PartialEq, Eq, Structural)]
pub struct ListOrder {
    pub id: i8,
    pub created_at: i8,
    pub expired_at: i8,
    pub file_size: i8,
    pub file_type: i8,
    pub file_name: i8,
}

/// The part of a listing to select: at most `limit` rows after the first
/// `offset`; a limit of zero selects all rows.
#[derive(Clone, Copy, Debug, PartialEq, Eq, Structural)]
pub struct ListWindow {
    pub order: ListOrder,
    pub limit: u64,
    pub offset: u64,
}

/// A statement on the metadata store.
#[derive(Debug)]
pub enum Statement {
    /// Open a transaction.
    Begin,
    /// Commit the open transaction.
    Commit,
    /// Abandon the open transaction.
    Rollback,
    /// Create the table `sys_db_information`.
    CreateInformationTable,
    /// Insert the rows `version` and `create_time` of `sys_db_information`.
    InsertInformation { version: u32, create_time: i64 },
    /// Create the tables of files, resources, images and thumbnails.
    CreateSchema,
    /// Select the value of the row `version`.
    SelectVersion,
    /// Select the value of the row `create_time`.
    SelectCreateTime,
    /// Select the file with a hash that is live at `now`.
    SelectLiveFileByHash { hash: FileHash, now: i64 },
    /// Add one to the count of a file.
    IncrementFileCount { id: u128 },
    /// Insert a file row.
    InsertFile(FileRow),
    /// Set the expiry of a file to `now` if its expiry lies after `now`.
    TouchTemporaryFile { id: u128, now: i64 },
    /// Set the expiry of a file to `now`.
    ExpireFile { id: u128, now: i64 },
    /// Select a file that is permanent or whose expiry is `now`.
    SelectReadableFile { id: u128, now: i64 },
    /// Ask whether a file exists and is live at `now`.
    SelectFileExists { id: u128, now: i64 },
    /// Ask whether a file exists with a count above one.
    SelectFileShared { id: u128 },
    /// Take one from the count of a file if the count is above one.
    DecrementFileCount { id: u128 },
    /// Delete a file row if its count is one.
    DeleteLastFile { id: u128 },
    /// Select the files whose expiry is at or before `now`.
    SelectExpiredFileIds { now: i64 },
    /// Count all file rows.
    CountFiles,
    /// Select a window of the files that are live at `now`.
    SelectLiveFileIds { now: i64, window: ListWindow },
    /// Insert a resource row.
    InsertResource(ResourceRow),
    /// Ask whether a resource exists whose file is live at `now`.
    SelectResourceExists { id: u128, now: i64 },
    /// Select a resource whose file is live at `now`.
    SelectResource { id: u128, now: i64 },
    /// Select the file of a resource.
    SelectResourceFile { id: u128 },
    /// Delete a resource row.
    DeleteResource { id: u128 },
    /// Delete the resource rows that name a file.
    DeleteResourcesOfFile { file_id: u128 },
    /// Count all resource rows.
    CountResources,
    /// Select a window of the resources.
    SelectResourceIds { window: ListWindow },
    /// Insert an image row.
    InsertImage(ImageRow),
    /// Insert the thumbnail links of an image.
    InsertThumbnails(Vec<ThumbnailLink>),
    /// Select the files of the thumbnails of an image, by rising multiplier,
    /// WebP before fallback.
    SelectThumbnailFiles { image_id: u128 },
    /// Select an image.
    SelectImage { id: u128 },
    /// Ask whether an image exists.
    SelectImageExists { id: u128 },
    /// Delete the thumbnail links of an image.
    DeleteThumbnails { image_id: u128 },
    /// Delete an image row.
    DeleteImage { id: u128 },
    /// Count all image rows.
    CountImages,
    /// Select a window of the images.
    SelectImageIds { window: ListWindow },
}

/// The mathematical value of a statement.
pub enum StatementView {
    Begin,
    Commit,
    Rollback,
    CreateInformationTable,
    InsertInformation { version: u32, create_time: i64 },
    CreateSchema,
    SelectVersion,
    SelectCreateTime,
    SelectLiveFileByHash { hash: FileHash, now: i64 },
    IncrementFileCount { id: u128 },
    InsertFile(FileRecord),
    TouchTemporaryFile { id: u128, now: i64 },
    ExpireFile { id: u128, now: i64 },
    SelectReadableFile { id: u128, now: i64 },
    SelectFileExists { id: u128, now: i64 },
    SelectFileShared { id: u128 },
    DecrementFileCount { id: u128 },
    DeleteLastFile { id: u128 },
    SelectExpiredFileIds { now: i64 },
    CountFiles,
    SelectLiveFileIds { now: i64, window: ListWindow },
    InsertResource(ResourceRecord),
    SelectResourceExists { id: u128, now: i64 },
    SelectResource { id: u128, now: i64 },
    SelectResourceFile { id: u128 },
    DeleteResource { id: u128 },
    DeleteResourcesOfFile { file_id: u128 },
    CountResources,
    SelectResourceIds { window: ListWindow },
    InsertImage(ImageRecord),
    InsertThumbnails(Seq<ThumbnailLink>),
    SelectThumbnailFiles { image_id: u128 },
    SelectImage { id: u128 },
    SelectImageExists { id: u128 },
    DeleteThumbnails { image_id: u128 },
    DeleteImage { id: u128 },
    CountImages,
    SelectImageIds { window: ListWindow },
}

impl View for Statement {
    type V = StatementView;

    open spec fn view(&self) -> StatementView {
        match *self {
            Statement::Begin => StatementView::Begin,
            Statement::Commit => StatementView::Commit,
            Statement::Rollback => StatementView::Rollback,
            Statement::CreateInformationTable => StatementView::CreateInformationTable,
            Statement::InsertInformation { version, create_time } => {
                StatementView::InsertInformation { version, create_time }
            },
            Statement::CreateSchema => StatementView::CreateSchema,
            Statement::SelectVersion => StatementView::SelectVersion,
            Statement::SelectCreateTime => StatementView::SelectCreateTime,
            Statement::SelectLiveFileByHash { hash, now } => {
                StatementView::SelectLiveFileByHash { hash, now }
            },
            Statement::IncrementFileCount { id } => StatementView::IncrementFileCount { id },
            Statement::InsertFile(row) => StatementView::InsertFile(row@),
            Statement::TouchTemporaryFile { id, now } => {
                StatementView::TouchTemporaryFile { id, now }
            },
            Statement::ExpireFile { id, now } => StatementView::ExpireFile { id, now },
            Statement::SelectReadableFile { id, now } => {
                StatementView::SelectReadableFile { id, now }
            },
            Statement::SelectFileExists { id, now } => StatementView::SelectFileExists { id, now },
            Statement::SelectFileShared { id } => StatementView::SelectFileShared { id },
            Statement::DecrementFileCount { id } => StatementView::DecrementFileCount { id },
            Statement::DeleteLastFile { id } => StatementView::DeleteLastFile { id },
            Statement::SelectExpiredFileIds { now } => StatementView::SelectExpiredFileIds { now },
            Statement::CountFiles => StatementView::CountFiles,
            Statement::SelectLiveFileIds { now, window } => {
                StatementView::SelectLiveFileIds { now, window }
            },
            Statement::InsertResource(row) => StatementView::InsertResource(row@),
            Statement::SelectResourceExists { id, now } => {
                StatementView::SelectResourceExists { id, now }
            },
            Statement::SelectResource { id, now } => StatementView::SelectResource { id, now },
            Statement::SelectResourceFile { id } => StatementView::SelectResourceFile { id },
            Statement::DeleteResource { id } => StatementView::DeleteResource { id },
            Statement::DeleteResourcesOfFile { file_id } => {
                StatementView::DeleteResourcesOfFile { file_id }
            },
            Statement::CountResources => StatementView::CountResources,
            Statement::SelectResourceIds { window } => StatementView::SelectResourceIds { window },
            Statement::InsertImage(row) => StatementView::InsertImage(row@),
            Statement::InsertThumbnails(links) => StatementView::InsertThumbnails(links@),
            Statement::SelectThumbnailFiles { image_id } => {
                StatementView::SelectThumbnailFiles { image_id }
            },
            Statement::SelectImage { id } => StatementView::SelectImage { id },
            Statement::SelectImageExists { id } => StatementView::SelectImageExists { id },
            Statement::DeleteThumbnails { image_id } => StatementView::DeleteThumbnails { image_id },
            Statement::DeleteImage { id } => StatementView::DeleteImage { id },
            Statement::CountImages => StatementView::CountImages,
            Statement::SelectImageIds { window } => StatementView::SelectImageIds { window },
        }
    }
}

/// The two directories that the store keeps beside its database file.
#[derive(Clone, Copy, Debug, PartialEq, Eq, Structural)]
pub enum Directory {
    /// The directory of staged payloads.
    Temporary,
    /// The directory of blobs.
    Files,
}

/// Where the payload of a put comes from.
#[derive(Debug)]
pub enum Payload {
    /// A buffer that the driver holds.
    Buffer,
    /// A file at a path.
    Path(String),
    /// A file staged in the temporary directory under an identifier.
    Staged(u128),
}

/// The mathematical value of a payload source.
pub enum PayloadView {
    Buffer,
    Path(Seq<char>),
    Staged(u128),
}

impl View for Payload {
    type V = PayloadView;

    open spec fn view(&self) -> PayloadView {
        match *self {
            Payload::Buffer => PayloadView::Buffer,
            Payload::Path(path) => PayloadView::Path(path@),
            Payload::Staged(id) => PayloadView::Staged(id),
        }
    }
}

impl Payload {
    /// A copy of this payload source.
    pub fn duplicate(&self) -> (r: Payload)
        ensures
            r@ == self@,
    {
        match self {
            Payload::Buffer => Payload::Buffer,
            Payload::Path(path) => Payload::Path(path.clone()),
            Payload::Staged(id) => Payload::Staged(*id),
        }
    }
}

/// An operation on the file system.
#[derive(Debug)]
pub enum FileOperation {
    /// Make sure that a directory of the store exists.
    EnsureDirectory(Directory),
    /// Ask for the size of the file at a path.
    Measure(String),
    /// Ask for the canonical form of a path.
    Canonicalize(String),
    /// Ask the magic database, where there is one, for the media type of a
    /// payload.
    Sniff(Payload),
    /// Store a payload as the blob of a file: a buffer is written, a file at
    /// a path is copied, a staged file is moved.
    StoreBlob { id: u128, payload: Payload },
    /// Remove the blob of a file.
    RemoveBlob { id: u128 },
    /// Remove a staged file.
    RemoveStaged { id: u128 },
    /// List the entries of a directory of the store.
    List(Directory),
    /// Remove an entry of a directory of the store that is a file or a link.
    RemoveEntry { directory: Directory, name: String },
    /// Remove an entry of a directory of the store that is a directory, with
    /// all that it holds.
    RemoveTree { directory: Directory, name: String },
    /// Ask whether a directory of the store is empty.
    IsEmpty(Directory),
    /// Remove a directory of the store with all that it holds.
    RemoveDirectory(Directory),
    /// Ask what lies at the path of the environment, in its canonical form.
    ProbeEnvironment,
    /// Create the directory of the environment.
    CreateEnvironment,
    /// Ask what lies at the path of the database file.
    ProbeDatabase,
    /// Connect to the database, with at least one connection and at most
    /// `max_connections`.
    Connect { create_if_missing: bool, max_connections: u32 },
    /// Take the exclusive lock on the database file.
    Lock,
    /// Close the connections to the database.
    Disconnect,
    /// Remove the database file.
    RemoveDatabase,
    /// Ask whether the directory of the environment is empty.
    IsEnvironmentEmpty,
    /// Remove the directory of the environment.
    RemoveEnvironment,
}

/// The mathematical value of a file operation.
pub enum FileOperationView {
    EnsureDirectory(Directory),
    Measure(Seq<char>),
    Canonicalize(Seq<char>),
    Sniff(PayloadView),
    StoreBlob { id: u128, payload: PayloadView },
    RemoveBlob { id: u128 },
    RemoveStaged { id: u128 },
    List(Directory),
    RemoveEntry { directory: Directory, name: Seq<char> },
    RemoveTree { directory: Directory, name: Seq<char> },
    IsEmpty(Directory),
    RemoveDirectory(Directory),
    ProbeEnvironment,
    CreateEnvironment,
    ProbeDatabase,
    Connect { create_if_missing: bool, max_connections: u32 },
    Lock,
    Disconnect,
    RemoveDatabase,
    IsEnvironmentEmpty,
    RemoveEnvironment,
}

impl View for FileOperation {
    type V = FileOperationView;

    open spec fn view(&self) -> FileOperationView {
        match *self {
            FileOperation::EnsureDirectory(d) => FileOperationView::EnsureDirectory(d),
            FileOperation::Measure(path) => FileOperationView::Measure(path@),
            FileOperation::Canonicalize(path) => FileOperationView::Canonicalize(path@),
            FileOperation::Sniff(payload) => FileOperationView::Sniff(payload@),
            FileOperation::StoreBlob { id, payload } => {
                FileOperationView::StoreBlob { id, payload: payload@ }
            },
            FileOperation::RemoveBlob { id } => FileOperationView::RemoveBlob { id },
            FileOperation::RemoveStaged { id } => FileOperationView::RemoveStaged { id },
            FileOperation::List(d) => FileOperationView::List(d),
            FileOperation::RemoveEntry { directory, name } => FileOperationView::RemoveEntry {
                directory,
                name: name@,
            },
            FileOperation::RemoveTree { directory, name } => FileOperationView::RemoveTree {
                directory,
                name: name@,
            },
            FileOperation::IsEmpty(d) => FileOperationView::IsEmpty(d),
            FileOperation::RemoveDirectory(d) => FileOperationView::RemoveDirectory(d),
            FileOperation::ProbeEnvironment => FileOperationView::ProbeEnvironment,
            FileOperation::CreateEnvironment => FileOperationView::CreateEnvironment,
            FileOperation::ProbeDatabase => FileOperationView::ProbeDatabase,
            FileOperation::Connect { create_if_missing, max_connections } => {
                FileOperationView::Connect { create_if_missing, max_connections }
            },
            FileOperation::Lock => FileOperationView::Lock,
            FileOperation::Disconnect => FileOperationView::Disconnect,
            FileOperation::RemoveDatabase => FileOperationView::RemoveDatabase,
            FileOperation::IsEnvironmentEmpty => FileOperationView::IsEnvironmentEmpty,
            FileOperation::RemoveEnvironment => FileOperationView::RemoveEnvironment,
        }
    }
}

/// What lies at a path.
#[derive(Clone, Copy, Debug, PartialEq, Eq, Structural)]
pub enum EntryKind {
    Directory,
    File,
    Symlink,
}

/// An entry of a directory.
#[derive(Debug)]
pub struct DirectoryEntry {
    pub name: String,
    pub kind: EntryKind,
}

/// The mathematical value of an entry of a directory.
pub struct DirectoryEntryView {
    pub name: Seq<char>,
    pub kind: EntryKind,
}

impl View for DirectoryEntry {
    type V = DirectoryEntryView;

    open spec fn view(&self) -> DirectoryEntryView {
        DirectoryEntryView { name: self.name@, kind: self.kind }
    }
}

/// The mathematical value of a list of entries.
pub open spec fn entries_view(entries: Seq<DirectoryEntry>) -> Seq<DirectoryEntryView> {
    Seq::new(entries.len(), |i: int| entries[i]@)
}

/// What the codec finds an image to be.
#[derive(Debug)]
pub struct ImageIdentity {
    pub width: u32,
    pub height: u32,
    /// The name of the format, as `PNG`.
    pub format: String,
    pub has_alpha_channel: bool,
}

/// The mathematical value of what the codec finds an image to be.
pub struct ImageIdentityView {
    pub width: u32,
    pub height: u32,
    pub format: Seq<char>,
    pub has_alpha_channel: bool,
}

impl View for ImageIdentity {
    type V = ImageIdentityView;

    open spec fn view(&self) -> ImageIdentityView {
        ImageIdentityView {
            width: self.width,
            height: self.height,
            format: self.format@,
            has_alpha_channel: self.has_alpha_channel,
        }
    }
}

/// The formats in which the store writes images.
#[derive(Clone, Copy, Debug, PartialEq, Eq, Structural)]
pub enum ImageFormat {
    /// Lossy WebP at quality 80.
    Webp,
    /// PNG.
    Png,
    /// JPEG at quality 70, chroma quartered.
    Jpeg,
}

/// A request to the image codec. The codec works on the image that the
/// driver holds for the operation.
#[derive(Clone, Copy, Debug, PartialEq, Eq, Structural)]
pub enum CodecRequest {
    /// Find out what the image is.
    Identify,
    /// Crop the image about its centre to the ratio that the caller gave,
    /// and find out what the cropped image is.
    Crop,
    /// Compute the size that fits the image, shrunk only and with its
    /// proportions kept, into the given bounds; a bound of zero is no bound.
    Fit { width: u16, height: u16, max_width: u16, max_height: u16 },
    /// Encode the image in a format at a size, into the buffer that the
    /// driver holds for the next put.
    Encode { format: ImageFormat, width: u16, height: u16 },
}

/// What an operation is told of the outcome of its last request.
#[derive(Debug)]
pub enum Reply {
    /// The request was carried out and has nothing to tell.
    Done,
    /// The answer to a question, or whether a guard was acquired.
    Flag(bool),
    /// The number of rows that a statement changed.
    Affected(u64),
    /// The time, in milliseconds since the Unix epoch.
    Time(i64),
    /// The size of a file in bytes.
    Size(u64),
    /// A count of rows.
    Count(u64),
    /// An identifier, where one was found.
    Id(Option<u128>),
    /// A list of identifiers.
    Ids(Vec<u128>),
    /// A text, where there is one.
    Text(Option<String>),
    /// A file row, where one was found.
    File(Option<FileRow>),
    /// A resource row, where one was found.
    Resource(Option<ResourceRow>),
    /// An image row, where one was found.
    Image(Option<ImageRow>),
    /// What lies at a path.
    Entry(EntryKind),
    /// The entries of a directory.
    Entries(Vec<DirectoryEntry>),
    /// What the codec finds the image to be.
    Identified(ImageIdentity),
    /// The size that fits the image into its bounds, where there is one.
    Fitted(Option<(u16, u16)>),
    /// The size and the hash of the image as encoded.
    Encoded { file_size: u64, hash: FileHash },
    /// The file system failed.
    IoFailed(IoErrorKind),
    /// The metadata store failed.
    SqlFailed(SqlErrorKind),
    /// The codec failed.
    CodecFailed,
}

/// The mathematical value of a reply.
pub enum ReplyView {
    Done,
    Flag(bool),
    Affected(u64),
    Time(i64),
    Size(u64),
    Count(u64),
    Id(Option<u128>),
    Ids(Seq<u128>),
    Text(Option<Seq<char>>),
    File(Option<FileRecord>),
    Resource(Option<ResourceRecord>),
    Image(Option<ImageRecord>),
    Entry(EntryKind),
    Entries(Seq<DirectoryEntryView>),
    Identified(ImageIdentityView),
    Fitted(Option<(u16, u16)>),
    Encoded { file_size: u64, hash: FileHash },
    IoFailed(IoErrorKind),
    SqlFailed(SqlErrorKind),
    CodecFailed,
}

impl View for Reply {
    type V = ReplyView;

    open spec fn view(&self) -> ReplyView {
        match *self {
            Reply::Done => ReplyView::Done,
            Reply::Flag(b) => ReplyView::Flag(b),
            Reply::Affected(n) => ReplyView::Affected(n),
            Reply::Time(t) => ReplyView::Time(t),
            Reply::Size(n) => ReplyView::Size(n),
            Reply::Count(n) => ReplyView::Count(n),
            Reply::Id(id) => ReplyView::Id(id),
            Reply::Ids(ids) => ReplyView::Ids(ids@),
            Reply::Text(text) => ReplyView::Text(
                match text {
                    Some(text) => Some(text@),
                    None => None,
                },
            ),
            Reply::File(row) => ReplyView::File(
                match row {
                    Some(row) => Some(row@),
                    None => None,
                },
            ),
            Reply::Resource(row) => ReplyView::Resource(
                match row {
                    Some(row) => Some(row@),
                    None => None,
                },
            ),
            Reply::Image(row) => ReplyView::Image(
                match row {
                    Some(row) => Some(row@),
                    None => None,
                },
            ),
            Reply::Entry(kind) => ReplyView::Entry(kind),
            Reply::Entries(entries) => ReplyView::Entries(entries_view(entries@)),
            Reply::Identified(identity) => ReplyView::Identified(identity@),
            Reply::Fitted(size) => ReplyView::Fitted(size),
            Reply::Encoded { file_size, hash } => ReplyView::Encoded { file_size, hash },
            Reply::IoFailed(kind) => ReplyView::IoFailed(kind),
            Reply::SqlFailed(kind) => ReplyView::SqlFailed(kind),
            Reply::CodecFailed => ReplyView::CodecFailed,
        }
    }
}

/// What an operation asks for next.
#[derive(Debug)]
pub enum Step<R> {
    /// Run a statement on the metadata store.
    Query(Statement),
    /// Carry out an operation on the file system.
    File(FileOperation),
    /// Put a request to the guard registry.
    Guard(GuardRequest),
    /// Put a request to the image codec.
    Codec(CodecRequest),
    /// Read the clock.
    Clock,
    /// Wait for `POLL_INTERVAL_MS` milliseconds.
    Pause,
    /// Nothing more: the operation has ended with this result.
    Finish(R),
}

/// The mathematical value of a step.
pub enum StepView<R> {
    Query(StatementView),
    File(FileOperationView),
    Guard(GuardRequestView),
    Codec(CodecRequest),
    Clock,
    Pause,
    Finish(R),
}

impl<R> StepView<R> {
    /// This request as the request of an operation that ends with another
    /// kind of result. A step that ends the operation has no such form; it is
    /// taken as a pause.
    pub open spec fn pass<S>(self) -> StepView<S> {
        match self {
            StepView::Query(s) => StepView::Query(s),
            StepView::File(op) => StepView::File(op),
            StepView::Guard(g) => StepView::Guard(g),
            StepView::Codec(c) => StepView::Codec(c),
            StepView::Clock => StepView::Clock,
            StepView::Pause => StepView::Pause,
            StepView::Finish(_) => StepView::Pause,
        }
    }
}

impl<R> Step<R> {
    /// The mathematical value of a step, the result of the operation taken
    /// by `result_view`.
    pub open spec fn view_with<V>(self, result_view: spec_fn(R) -> V) -> StepView<V> {
        match self {
            Step::Query(s) => StepView::Query(s@),
            Step::File(op) => StepView::File(op@),
            Step::Guard(g) => StepView::Guard(g@),
            Step::Codec(c) => StepView::Codec(c),
            Step::Clock => StepView::Clock,
            Step::Pause => StepView::Pause,
            Step::Finish(r) => StepView::Finish(result_view(r)),
        }
    }
}

/// A step of a part of an operation, as it appears to the whole.
pub enum Passed<R, S> {
    /// The part asks for something: the whole asks for the same.
    Request(Step<S>),
    /// The part has ended with a result.
    Ended(R),
}

/// Whether two steps ask for the same.
pub open spec fn same_request<R, S>(a: Step<R>, b: Step<S>) -> bool {
    match (a, b) {
        (Step::Query(x), Step::Query(y)) => x == y,
        (Step::File(x), Step::File(y)) => x == y,
        (Step::Guard(x), Step::Guard(y)) => x == y,
        (Step::Codec(x), Step::Codec(y)) => x == y,
        (Step::Clock, Step::Clock) => true,
        (Step::Pause, Step::Pause) => true,
        _ => false,
    }
}

impl<R> Step<R> {
    /// Tells a request apart from the end of the operation, and hands the
    /// request on as that of an operation with another kind of result.
    pub fn pass<S>(self) -> (r: Passed<R, S>)
        ensures
            match r {
                Passed::Request(step) => same_request(self, step),
                Passed::Ended(result) => self == Step::Finish(result),
            },
    {
        match self {
            Step::Query(s) => Passed::Request(Step::Query(s)),
            Step::File(op) => Passed::Request(Step::File(op)),
            Step::Guard(g) => Passed::Request(Step::Guard(g)),
            Step::Codec(c) => Passed::Request(Step::Codec(c)),
            Step::Clock => Passed::Request(Step::Clock),
            Step::Pause => Passed::Request(Step::Pause),
            Step::Finish(result) => Passed::Ended(result),
        }
    }
}

/// The time between two polls of the guard registry, in milliseconds.
pub const POLL_INTERVAL_MS: u64 = 10;

} // verus!
